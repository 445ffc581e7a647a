//! The flattened device tree: its header, its token stream, and the few
//! properties read out of it.

use vstd::prelude::*;
use vstd::string::StringSliceAdditionalSpecFns;

use crate::bytes::{be, read_u32_be, read_u64_be};

verus! {

/// What a device tree blob starts with.
pub const FDT_MAGIC: u32 = 0xd00d_feed;

/// The bytes of the header.
pub const FDT_HEADER_SIZE: usize = 40;

/// The token before a node's name.
pub const FDT_BEGIN_NODE: u32 = 0x0000_0001;

/// The token after a node.
pub const FDT_END_NODE: u32 = 0x0000_0002;

/// The token before a property.
pub const FDT_PROP: u32 = 0x0000_0003;

/// A token without meaning.
pub const FDT_NOP: u32 = 0x0000_0004;

/// The token after the last node.
pub const FDT_END: u32 = 0x0000_0009;

/// The header of a device tree blob.
#[derive(Debug, Clone, Copy, PartialEq, Eq, Structural)]
pub struct FdtHeader {
    pub magic: u32,
    pub totalsize: u32,
    pub off_dt_struct: u32,
    pub off_dt_strings: u32,
    pub off_mem_rsvmap: u32,
    pub version: u32,
    pub last_comp_version: u32,
    pub boot_cpuid_phys: u32,
    pub size_dt_strings: u32,
    pub size_dt_struct: u32,
}

/// The blob is long enough for a header and starts with the magic number.
pub open spec fn has_header(blob: Seq<u8>) -> bool {
    blob.len() >= FDT_HEADER_SIZE && be(blob, 0, 4) == FDT_MAGIC
}

/// Where the structure block starts.
pub open spec fn struct_start(blob: Seq<u8>) -> int {
    be(blob, 8, 4) as int
}

/// Where the structure block ends.
pub open spec fn struct_end(blob: Seq<u8>) -> int {
    be(blob, 8, 4) as int + be(blob, 36, 4)
}

/// Where the strings block starts.
pub open spec fn strings_start(blob: Seq<u8>) -> int {
    be(blob, 12, 4) as int
}

impl FdtHeader {
    /// Reads the header; there is none if the magic number is missing.
    pub fn read(blob: &[u8]) -> (r: Option<FdtHeader>)
        ensures
            r is Some <==> has_header(blob@),
            r matches Some(h) ==> {
                &&& h.magic == be(blob@, 0, 4)
                &&& h.totalsize == be(blob@, 4, 4)
                &&& h.off_dt_struct == be(blob@, 8, 4)
                &&& h.off_dt_strings == be(blob@, 12, 4)
                &&& h.off_mem_rsvmap == be(blob@, 16, 4)
                &&& h.version == be(blob@, 20, 4)
                &&& h.last_comp_version == be(blob@, 24, 4)
                &&& h.boot_cpuid_phys == be(blob@, 28, 4)
                &&& h.size_dt_strings == be(blob@, 32, 4)
                &&& h.size_dt_struct == be(blob@, 36, 4)
            },
    {
        if blob.len() < FDT_HEADER_SIZE {
            return None;
        }
        let header = FdtHeader {
            magic: read_u32_be(blob, 0),
            totalsize: read_u32_be(blob, 4),
            off_dt_struct: read_u32_be(blob, 8),
            off_dt_strings: read_u32_be(blob, 12),
            off_mem_rsvmap: read_u32_be(blob, 16),
            version: read_u32_be(blob, 20),
            last_comp_version: read_u32_be(blob, 24),
            boot_cpuid_phys: read_u32_be(blob, 28),
            size_dt_strings: read_u32_be(blob, 32),
            size_dt_struct: read_u32_be(blob, 36),
        };
        if header.magic != FDT_MAGIC {
            return None;
        }
        Some(header)
    }
}

/// The first zero byte from `at` on, or the end of the blob.
pub open spec fn terminator(blob: Seq<u8>, at: int) -> int
    decreases blob.len() - at,
{
    if at >= blob.len() {
        blob.len() as int
    } else if blob[at] == 0 {
        at
    } else {
        terminator(blob, at + 1)
    }
}

/// A zero-terminated string starts at `at`.
pub open spec fn has_string(blob: Seq<u8>, at: int) -> bool {
    0 <= at && terminator(blob, at) < blob.len()
}

/// The zero-terminated string at `at`.
pub open spec fn string_at(blob: Seq<u8>, at: int) -> Seq<u8> {
    blob.subrange(at, terminator(blob, at))
}

/// The next multiple of four.
pub open spec fn aligned(at: int) -> int {
    (at + 3) / 4 * 4
}

/// A token of the structure block, with the offset of the token after it.
pub enum Token {
    Begin { name: Seq<u8>, next: int },
    End { next: int },
    Prop { name: Seq<u8>, value: Seq<u8>, next: int },
    Nop { next: int },
    /// The last token, an unknown one, or one that the blob cuts off.
    Stop,
}

/// The token at offset `at`.
pub open spec fn token_at(blob: Seq<u8>, at: int) -> Token {
    if at >= struct_end(blob) || at + 4 > blob.len() {
        Token::Stop
    } else {
        let kind = be(blob, at, 4);
        if kind == FDT_BEGIN_NODE {
            if has_string(blob, at + 4) {
                Token::Begin {
                    name: string_at(blob, at + 4),
                    next: aligned(terminator(blob, at + 4) + 1),
                }
            } else {
                Token::Stop
            }
        } else if kind == FDT_END_NODE {
            Token::End { next: at + 4 }
        } else if kind == FDT_PROP {
            if at + 12 > blob.len() {
                Token::Stop
            } else {
                let end = at + 12 + be(blob, at + 4, 4);
                let name_at = strings_start(blob) + be(blob, at + 8, 4);
                if end > blob.len() || !has_string(blob, name_at) {
                    Token::Stop
                } else {
                    Token::Prop {
                        name: string_at(blob, name_at),
                        value: blob.subrange(at + 12, end),
                        next: aligned(end),
                    }
                }
            }
        } else if kind == FDT_NOP {
            Token::Nop { next: at + 4 }
        } else {
            Token::Stop
        }
    }
}

/// A node: its name and the two properties that matter here.
#[verifier::ext_equal]
pub struct NodeInfo {
    pub name: Seq<u8>,
    pub reg: Option<Seq<u8>>,
    pub compatible: Option<Seq<u8>>,
}

/// `nodes` and, if a node is open, that node.
pub open spec fn closed_with(nodes: Seq<NodeInfo>, open_node: Option<NodeInfo>) -> Seq<NodeInfo> {
    match open_node {
        Some(node) => nodes.push(node),
        None => nodes,
    }
}

/// The open node after a property was seen.
pub open spec fn with_property(
    open_node: Option<NodeInfo>,
    name: Seq<u8>,
    value: Seq<u8>,
) -> Option<NodeInfo> {
    match open_node {
        Some(node) => if name == "reg".spec_bytes() {
            Some(NodeInfo { reg: Some(value), ..node })
        } else if name == "compatible".spec_bytes() {
            Some(NodeInfo { compatible: Some(value), ..node })
        } else {
            Some(node)
        },
        None => None,
    }
}

/// The nodes found from offset `at` on, after `nodes` and the open node. A
/// node's properties stand between its own beginning and the next beginning or
/// end of a node.
pub open spec fn nodes_from(
    blob: Seq<u8>,
    at: int,
    nodes: Seq<NodeInfo>,
    open_node: Option<NodeInfo>,
) -> Seq<NodeInfo>
    decreases
        (if at < blob.len() {
            blob.len() - at
        } else {
            0
        }),
    via nodes_from_terminates
{
    match token_at(blob, at) {
        Token::Stop => closed_with(nodes, open_node),
        Token::Begin { name, next } => nodes_from(
            blob,
            next,
            closed_with(nodes, open_node),
            Some(NodeInfo { name, reg: None, compatible: None }),
        ),
        Token::End { next } => nodes_from(blob, next, closed_with(nodes, open_node), None),
        Token::Prop { name, value, next } => nodes_from(
            blob,
            next,
            nodes,
            with_property(open_node, name, value),
        ),
        Token::Nop { next } => nodes_from(blob, next, nodes, open_node),
    }
}

#[via_fn]
proof fn nodes_from_terminates(
    blob: Seq<u8>,
    at: int,
    nodes: Seq<NodeInfo>,
    open_node: Option<NodeInfo>,
) {
    lemma_terminator_bounds(blob, at + 4);
}

proof fn lemma_terminator_bounds(blob: Seq<u8>, at: int)
    ensures
        at <= blob.len() ==> at <= terminator(blob, at) <= blob.len(),
    decreases blob.len() - at,
{
    if at < blob.len() && blob[at] != 0 {
        lemma_terminator_bounds(blob, at + 1);
    }
}

/// All nodes of the tree, in order.
pub open spec fn tree_nodes(blob: Seq<u8>) -> Seq<NodeInfo> {
    if has_header(blob) {
        nodes_from(blob, struct_start(blob), Seq::empty(), None)
    } else {
        Seq::empty()
    }
}

/// `needle` occurs in `hay` at `i`.
pub open spec fn occurs_at(hay: Seq<u8>, needle: Seq<u8>, i: int) -> bool {
    0 <= i && i + needle.len() <= hay.len() && hay.subrange(i, i + needle.len()) == needle
}

/// `needle` occurs in `hay`.
pub open spec fn occurs(hay: Seq<u8>, needle: Seq<u8>) -> bool {
    exists|i: int| occurs_at(hay, needle, i)
}

impl NodeInfo {
    /// The node's `compatible` property contains `text`.
    pub open spec fn is_compatible(self, text: Seq<u8>) -> bool {
        self.compatible matches Some(c) && occurs(c, text)
    }

    /// The node gives a range of memory: its name starts with "memory", and its
    /// `reg` holds an address and a size.
    pub open spec fn gives_memory(self) -> bool {
        occurs_at(self.name, "memory".spec_bytes(), 0) && (self.reg matches Some(v) && v.len() >= 16)
    }

    /// The node gives the base of the interrupt controller: it is compatible
    /// with "riscv,plic0", and its `reg` holds an address.
    pub open spec fn gives_plic(self) -> bool {
        self.is_compatible("riscv,plic0".spec_bytes()) && (self.reg matches Some(v) && v.len() >= 8)
    }

    /// The 64-bit big-endian number in `reg` at byte `at`.
    pub open spec fn reg_number(self, at: int) -> u64 {
        be(self.reg->0, at, 8) as u64
    }
}

/// The last node that gives a range of memory.
pub open spec fn last_memory(nodes: Seq<NodeInfo>) -> Option<NodeInfo>
    decreases nodes.len(),
{
    if nodes.len() == 0 {
        None
    } else if nodes.last().gives_memory() {
        Some(nodes.last())
    } else {
        last_memory(nodes.drop_last())
    }
}

/// The last node that gives the base of the interrupt controller.
pub open spec fn last_plic(nodes: Seq<NodeInfo>) -> Option<NodeInfo>
    decreases nodes.len(),
{
    if nodes.len() == 0 {
        None
    } else if nodes.last().gives_plic() {
        Some(nodes.last())
    } else {
        last_plic(nodes.drop_last())
    }
}

/// Some node is compatible with "iommu".
pub open spec fn any_iommu(nodes: Seq<NodeInfo>) -> bool {
    exists|i: int|
        0 <= i < nodes.len() && (#[trigger] nodes[i]).is_compatible("iommu".spec_bytes())
}

/// What was read out of a device tree.
#[derive(Debug, Clone, Copy, PartialEq, Eq)]
pub struct DtDiscoveryResult {
    pub plic_base: Option<u64>,
    pub iommu_present: bool,
    pub memory_base: Option<u64>,
    pub memory_size: Option<u64>,
}

impl Default for DtDiscoveryResult {
    fn default() -> (r: Self)
        ensures
            r == (DtDiscoveryResult {
                plic_base: None,
                iommu_present: false,
                memory_base: None,
                memory_size: None,
            }),
    {
        DtDiscoveryResult {
            plic_base: None,
            iommu_present: false,
            memory_base: None,
            memory_size: None,
        }
    }
}

impl DtDiscoveryResult {
    /// The result says what `nodes` say.
    pub open spec fn reports(self, nodes: Seq<NodeInfo>) -> bool {
        &&& self.iommu_present == any_iommu(nodes)
        &&& match last_plic(nodes) {
            Some(node) => self.plic_base == Some(node.reg_number(0)),
            None => self.plic_base is None,
        }
        &&& match last_memory(nodes) {
            Some(node) => {
                &&& self.memory_base == Some(node.reg_number(0))
                &&& self.memory_size == Some(node.reg_number(8))
            },
            None => self.memory_base is None && self.memory_size is None,
        }
    }
}

/// Whether `needle` stands at `at` in `bytes`, before `end`.
fn matches_at(bytes: &[u8], at: usize, end: usize, needle: &[u8]) -> (r: bool)
    requires
        at <= end <= bytes.len(),
    ensures
        r == (at + needle@.len() <= end && bytes@.subrange(at as int, at + needle@.len())
            == needle@),
{
    if needle.len() > end - at {
        return false;
    }
    let mut i: usize = 0;
    while i < needle.len()
        invariant
            at + needle.len() <= end <= bytes.len(),
            i <= needle.len(),
            forall|j: int| 0 <= j < i ==> bytes@[at + j] == needle@[j],
        decreases needle.len() - i,
    {
        if bytes[at + i] != needle[i] {
            assert(bytes@.subrange(at as int, at + needle@.len())[i as int] != needle@[i as int]);
            return false;
        }
        i = i + 1;
    }
    assert(bytes@.subrange(at as int, at + needle@.len()) =~= needle@);
    true
}

/// Whether `needle` occurs in the bytes from `from` to before `end`.
fn contains_bytes(bytes: &[u8], from: usize, end: usize, needle: &[u8]) -> (r: bool)
    requires
        from <= end <= bytes.len(),
    ensures
        r == occurs(bytes@.subrange(from as int, end as int), needle@),
{
    let ghost hay = bytes@.subrange(from as int, end as int);
    let mut at: usize = from;
    loop
        invariant
            from <= at <= end <= bytes.len(),
            hay == bytes@.subrange(from as int, end as int),
            forall|i: int| 0 <= i < at - from ==> !#[trigger] occurs_at(hay, needle@, i),
        decreases end - at,
    {
        let found = matches_at(bytes, at, end, needle);
        proof {
            let i = at - from;
            if i + needle@.len() <= hay.len() {
                assert(hay.subrange(i, i + needle@.len()) =~= bytes@.subrange(
                    at as int,
                    at + needle@.len(),
                ));
            }
            assert(found == occurs_at(hay, needle@, i));
        }
        if found {
            return true;
        }
        if at == end {
            assert forall|i: int| !occurs_at(hay, needle@, i) by {}
            return false;
        }
        at = at + 1;
    }
}

/// A token of the structure block, as offsets into the blob.
enum RawToken {
    Begin { name_at: usize, name_end: usize, next: u64 },
    End { next: u64 },
    Prop { name_at: usize, name_end: usize, value_at: usize, value_end: usize, next: u64 },
    Nop { next: u64 },
    Stop,
}

impl RawToken {
    /// The offsets describe `token`.
    spec fn describes(self, blob: Seq<u8>, token: Token) -> bool {
        match self {
            RawToken::Begin { name_at, name_end, next } => {
                &&& name_at <= name_end <= blob.len()
                &&& token == (Token::Begin {
                    name: blob.subrange(name_at as int, name_end as int),
                    next: next as int,
                })
            },
            RawToken::End { next } => token == (Token::End { next: next as int }),
            RawToken::Prop { name_at, name_end, value_at, value_end, next } => {
                &&& name_at <= name_end <= blob.len()
                &&& value_at <= value_end <= blob.len()
                &&& token == (Token::Prop {
                    name: blob.subrange(name_at as int, name_end as int),
                    value: blob.subrange(value_at as int, value_end as int),
                    next: next as int,
                })
            },
            RawToken::Nop { next } => token == (Token::Nop { next: next as int }),
            RawToken::Stop => token == Token::Stop,
        }
    }
}

/// Steps through the structure block.
struct FdtWalker<'a> {
    blob: &'a [u8],
    struct_end: u64,
    strings_start: u64,
    offset: u64,
}

impl<'a> FdtWalker<'a> {
    spec fn well_formed(self) -> bool {
        &&& self.struct_end == struct_end(self.blob@)
        &&& self.strings_start == strings_start(self.blob@)
        &&& self.struct_end <= 0x2_0000_0000
        &&& self.strings_start <= 0x1_0000_0000
        &&& self.blob.len() <= 0x7FFF_FFFF_FFFF_FFFF
    }

    /// Starts at the first token.
    fn new(blob: &'a [u8], header: &FdtHeader) -> (r: Self)
        requires
            header.off_dt_struct == be(blob@, 8, 4),
            header.off_dt_strings == be(blob@, 12, 4),
            header.size_dt_struct == be(blob@, 36, 4),
            blob.len() <= 0x7FFF_FFFF_FFFF_FFFF,
        ensures
            r.well_formed(),
            r.blob == blob,
            r.offset == struct_start(blob@),
    {
        FdtWalker {
            blob,
            struct_end: header.off_dt_struct as u64 + header.size_dt_struct as u64,
            strings_start: header.off_dt_strings as u64,
            offset: header.off_dt_struct as u64,
        }
    }

    /// The string at `at`, as its start and end; none if it is cut off.
    fn read_cstr_at(&self, at: u64) -> (r: Option<(usize, usize)>)
        ensures
            r is Some <==> has_string(self.blob@, at as int),
            r matches Some(s) ==> s.0 == at && s.1 == terminator(self.blob@, at as int) && s.0
                <= s.1 < self.blob.len(),
    {
        if at >= self.blob.len() as u64 {
            return None;
        }
        let start: usize = at as usize;
        let mut end: usize = start;
        while end < self.blob.len()
            invariant
                start <= end <= self.blob.len(),
                terminator(self.blob@, end as int) == terminator(self.blob@, start as int),
                start == at,
            decreases self.blob.len() - end,
        {
            if self.blob[end] == 0 {
                return Some((start, end));
            }
            end = end + 1;
        }
        None
    }

    /// `at` rounded up to a multiple of four.
    fn align_offset(at: u64) -> (r: u64)
        requires
            at <= u64::MAX - 3,
        ensures
            r == aligned(at as int),
    {
        (at + 3) / 4 * 4
    }

    /// The token at the current offset.
    fn token(&self) -> (r: RawToken)
        requires
            self.well_formed(),
        ensures
            r.describes(self.blob@, token_at(self.blob@, self.offset as int)),
    {
        let len: u64 = self.blob.len() as u64;
        if self.offset >= self.struct_end || len < 4 || self.offset > len - 4 {
            return RawToken::Stop;
        }
        let at: usize = self.offset as usize;
        let kind: u32 = read_u32_be(self.blob, at);
        if kind == FDT_BEGIN_NODE {
            match self.read_cstr_at(self.offset + 4) {
                Some(name) => RawToken::Begin {
                    name_at: name.0,
                    name_end: name.1,
                    next: Self::align_offset(name.1 as u64 + 1),
                },
                None => RawToken::Stop,
            }
        } else if kind == FDT_END_NODE {
            RawToken::End { next: self.offset + 4 }
        } else if kind == FDT_PROP {
            if len < 12 || self.offset > len - 12 {
                return RawToken::Stop;
            }
            let value_len: u32 = read_u32_be(self.blob, at + 4);
            let name_offset: u32 = read_u32_be(self.blob, at + 8);
            let end: u64 = self.offset + 12 + value_len as u64;
            if end > len {
                return RawToken::Stop;
            }
            match self.read_cstr_at(self.strings_start + name_offset as u64) {
                Some(name) => RawToken::Prop {
                    name_at: name.0,
                    name_end: name.1,
                    value_at: at + 12,
                    value_end: end as usize,
                    next: Self::align_offset(end),
                },
                None => RawToken::Stop,
            }
        } else if kind == FDT_NOP {
            RawToken::Nop { next: self.offset + 4 }
        } else {
            RawToken::Stop
        }
    }
}

/// The open node, as offsets into the blob.
#[derive(Clone, Copy)]
struct OpenNode {
    is_memory: bool,
    is_plic: bool,
    is_iommu: bool,
    reg: Option<(usize, usize)>,
}

impl OpenNode {
    /// The offsets describe `node`.
    spec fn describes(self, blob: Seq<u8>, node: NodeInfo) -> bool {
        &&& self.is_memory == occurs_at(node.name, "memory".spec_bytes(), 0)
        &&& self.is_plic == node.is_compatible("riscv,plic0".spec_bytes())
        &&& self.is_iommu == node.is_compatible("iommu".spec_bytes())
        &&& match self.reg {
            Some((at, end)) => {
                &&& at <= end <= blob.len()
                &&& node.reg == Some(blob.subrange(at as int, end as int))
            },
            None => node.reg is None,
        }
    }
}

/// `open` describes `node`, or neither is there.
spec fn open_describes(open: Option<OpenNode>, blob: Seq<u8>, node: Option<NodeInfo>) -> bool {
    match open {
        Some(o) => node matches Some(n) && o.describes(blob, n),
        None => node is None,
    }
}

/// The big-endian number in a part of the blob is the one in the blob.
proof fn lemma_be_subrange(blob: Seq<u8>, from: int, end: int, at: int, n: nat)
    requires
        0 <= from <= end <= blob.len(),
        0 <= at,
        at + n <= end - from,
    ensures
        be(blob.subrange(from, end), at, n) == be(blob, from + at, n),
    decreases n,
{
    if n > 0 {
        lemma_be_subrange(blob, from, end, at, (n - 1) as nat);
    }
}

impl DtDiscoveryResult {
    /// Adds what the open node gives.
    fn close(&mut self, blob: &[u8], open: Option<OpenNode>, Ghost(nodes): Ghost<Seq<NodeInfo>>, Ghost(node): Ghost<Option<NodeInfo>>)
        requires
            old(self).reports(nodes),
            open_describes(open, blob@, node),
        ensures
            final(self).reports(closed_with(nodes, node)),
    {
        match open {
            Some(o) => {
                let ghost n = node->0;
                let ghost all = nodes.push(n);
                proof {
                    assert(all.drop_last() =~= nodes);
                    assert(all.last() == n);
                    assert(any_iommu(all) == (any_iommu(nodes) || n.is_compatible(
                        "iommu".spec_bytes(),
                    ))) by {
                        if any_iommu(nodes) {
                            let i = choose|i: int|
                                0 <= i < nodes.len() && (#[trigger] nodes[i]).is_compatible(
                                    "iommu".spec_bytes(),
                                );
                            assert(all[i] == nodes[i]);
                        }
                        assert(all[nodes.len() as int] == n);
                    }
                }
                if o.is_iommu {
                    self.iommu_present = true;
                }
                match o.reg {
                    Some((at, end)) => {
                        if o.is_memory && end - at >= 16 {
                            proof {
                                lemma_be_subrange(blob@, at as int, end as int, 0, 8);
                                lemma_be_subrange(blob@, at as int, end as int, 8, 8);
                            }
                            self.memory_base = Some(read_u64_be(blob, at));
                            self.memory_size = Some(read_u64_be(blob, at + 8));
                        }
                        if o.is_plic && end - at >= 8 {
                            proof {
                                lemma_be_subrange(blob@, at as int, end as int, 0, 8);
                            }
                            self.plic_base = Some(read_u64_be(blob, at));
                        }
                    },
                    None => {},
                }
            },
            None => {},
        }
    }
}

/// Reads the memory range, the interrupt controller's base and the presence of
/// an IOMMU out of a device tree.
pub fn walk_device_tree(blob: &[u8]) -> (r: DtDiscoveryResult)
    requires
        blob.len() <= 0x7FFF_FFFF_FFFF_FFFF,
    ensures
        r.reports(tree_nodes(blob@)),
{
    let mut result = DtDiscoveryResult::default();
    let header = match FdtHeader::read(blob) {
        Some(header) => header,
        None => {
            return result;
        },
    };
    let mut walker = FdtWalker::new(blob, &header);
    let mut open: Option<OpenNode> = None;
    let ghost mut nodes: Seq<NodeInfo> = Seq::empty();
    let ghost mut node: Option<NodeInfo> = None;
    loop
        invariant
            has_header(blob@),
            walker.well_formed(),
            walker.blob == blob,
            result.reports(nodes),
            open_describes(open, blob@, node),
            tree_nodes(blob@) == nodes_from(blob@, walker.offset as int, nodes, node),
        decreases
                (if walker.offset < blob.len() {
                    blob.len() - walker.offset
                } else {
                    0
                }),
    {
        proof {
            lemma_terminator_bounds(blob@, walker.offset + 4);
        }
        match walker.token() {
            RawToken::Begin { name_at, name_end, next } => {
                result.close(blob, open, Ghost(nodes), Ghost(node));
                let is_memory = matches_at(blob, name_at, name_end, "memory".as_bytes());
                open = Some(OpenNode { is_memory, is_plic: false, is_iommu: false, reg: None });
                walker.offset = next;
                proof {
                    let name = blob@.subrange(name_at as int, name_end as int);
                    let m = "memory".spec_bytes();
                    if m.len() <= name.len() {
                        assert(name.subrange(0, m.len() as int) =~= blob@.subrange(
                            name_at as int,
                            name_at + m.len(),
                        ));
                    }
                    nodes = closed_with(nodes, node);
                    node = Some(NodeInfo { name, reg: None, compatible: None });
                }
            },
            RawToken::End { next } => {
                result.close(blob, open, Ghost(nodes), Ghost(node));
                open = None;
                walker.offset = next;
                proof {
                    nodes = closed_with(nodes, node);
                    node = None;
                }
            },
            RawToken::Prop { name_at, name_end, value_at, value_end, next } => {
                let is_reg = name_end - name_at == "reg".as_bytes().len() && matches_at(
                    blob,
                    name_at,
                    name_end,
                    "reg".as_bytes(),
                );
                let is_compatible = !is_reg && name_end - name_at == "compatible".as_bytes().len()
                    && matches_at(blob, name_at, name_end, "compatible".as_bytes());
                let ghost name = blob@.subrange(name_at as int, name_end as int);
                let ghost value = blob@.subrange(value_at as int, value_end as int);
                match open {
                    Some(o) => {
                        let mut o = o;
                        if is_reg {
                            o.reg = Some((value_at, value_end));
                        } else if is_compatible {
                            o.is_plic = contains_bytes(
                                blob,
                                value_at,
                                value_end,
                                "riscv,plic0".as_bytes(),
                            );
                            o.is_iommu = contains_bytes(
                                blob,
                                value_at,
                                value_end,
                                "iommu".as_bytes(),
                            );
                        }
                        open = Some(o);
                    },
                    None => {},
                }
                walker.offset = next;
                proof {
                    assert(is_reg == (name == "reg".spec_bytes()));
                    assert(is_compatible == (!is_reg && name == "compatible".spec_bytes()));
                    node = with_property(node, name, value);
                }
            },
            RawToken::Nop { next } => {
                walker.offset = next;
            },
            RawToken::Stop => {
                result.close(blob, open, Ghost(nodes), Ghost(node));
                return result;
            },
        }
    }
}

} // verus!
