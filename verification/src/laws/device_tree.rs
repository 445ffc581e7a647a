//! Laws of the device tree.

use vstd::prelude::*;
use vstd::string::StringSliceAdditionalSpecFns;

use crate::bytes::be;
use crate::fdt::{
    any_iommu, has_header, last_memory, last_plic, nodes_from, occurs, occurs_at, terminator,
    tree_nodes, DtDiscoveryResult, NodeInfo,
};
use crate::laws::words::big_endian_bytes_add_up;
use crate::riscv64::memory::Memory;

verus! {

proof fn lemma_names()
    ensures
        "memory".spec_bytes() == seq![109u8, 101, 109, 111, 114, 121],
        "riscv,plic0".spec_bytes() == seq![
            114u8, 105, 115, 99, 118, 44, 112, 108, 105, 99, 48,
        ],
        "iommu".spec_bytes() == seq![105u8, 111, 109, 109, 117],
        "reg".spec_bytes() == seq![114u8, 101, 103],
        "compatible".spec_bytes() == seq![99u8, 111, 109, 112, 97, 116, 105, 98, 108, 101],
{
    reveal_strlit("memory");
    reveal_strlit("riscv,plic0");
    reveal_strlit("iommu");
    reveal_strlit("reg");
    reveal_strlit("compatible");
    vstd::string::is_ascii_spec_bytes("memory");
    vstd::string::is_ascii_spec_bytes("riscv,plic0");
    vstd::string::is_ascii_spec_bytes("iommu");
    vstd::string::is_ascii_spec_bytes("reg");
    vstd::string::is_ascii_spec_bytes("compatible");
    assert("memory".spec_bytes() =~= seq![109u8, 101, 109, 111, 114, 121]);
    assert("riscv,plic0".spec_bytes() =~= seq![
        114u8, 105, 115, 99, 118, 44, 112, 108, 105, 99, 48,
    ]);
    assert("iommu".spec_bytes() =~= seq![105u8, 111, 109, 109, 117]);
    assert("reg".spec_bytes() =~= seq![114u8, 101, 103]);
    assert("compatible".spec_bytes() =~= seq![99u8, 111, 109, 112, 97, 116, 105, 98, 108, 101]);
}

/// A blob is a device tree exactly if it is long enough for a header and starts
/// with the bytes D0 0D FE ED; its nodes are then read from the offset in the four
/// bytes from byte 8 on, and nothing is read from anything else.
pub proof fn tree_starts_where_its_header_says(blob: Seq<u8>)
    ensures
        has_header(blob) <==> blob.len() >= 40 && blob[0] == 0xD0 && blob[1] == 0x0D && blob[2]
            == 0xFE && blob[3] == 0xED,
        has_header(blob) ==> tree_nodes(blob) == nodes_from(
            blob,
            0x100_0000 * blob[8] + 0x1_0000 * blob[9] + 0x100 * blob[10] + blob[11],
            Seq::empty(),
            None,
        ),
        !has_header(blob) ==> tree_nodes(blob).len() == 0,
{
    big_endian_bytes_add_up(blob, 0);
    big_endian_bytes_add_up(blob, 8);
}

/// A token starts at `at`: it is in the blob, and before the end of the structure
/// block that the header gives.
pub open spec fn token_starts(blob: Seq<u8>, at: int) -> bool {
    0 <= at && at + 4 <= blob.len() && at < be(blob, 8, 4) + be(blob, 36, 4)
}

/// The bytes from `at` on are `text` and a zero.
pub open spec fn text_stands(blob: Seq<u8>, at: int, text: Seq<u8>) -> bool {
    &&& 0 <= at
    &&& at + text.len() < blob.len()
    &&& forall|k: int| 0 <= k < text.len() ==> #[trigger] text[k] != 0 && blob[at + k] == text[k]
    &&& blob[at + text.len()] == 0
}

/// `next` is the first multiple of four from `end` on.
pub open spec fn next_word(end: int, next: int) -> bool {
    next % 4 == 0 && end <= next < end + 4
}

/// The nodes with the one that was open.
pub open spec fn with_open(nodes: Seq<NodeInfo>, open_node: Option<NodeInfo>) -> Seq<NodeInfo> {
    match open_node {
        Some(node) => nodes.push(node),
        None => nodes,
    }
}

proof fn lemma_text_ends(blob: Seq<u8>, from: int, at: int, end: int)
    requires
        0 <= from <= at <= end < blob.len(),
        forall|k: int| from <= k < end ==> #[trigger] blob[k] != 0,
        blob[end] == 0,
    ensures
        terminator(blob, at) == end,
    decreases end - at,
{
    if at < end {
        assert(blob[at] != 0);
        lemma_text_ends(blob, from, at + 1, end);
    }
}

proof fn lemma_text(blob: Seq<u8>, at: int, text: Seq<u8>)
    requires
        text_stands(blob, at, text),
    ensures
        terminator(blob, at) == at + text.len(),
        blob.subrange(at, at + text.len()) == text,
{
    assert forall|k: int| at <= k < at + text.len() implies #[trigger] blob[k] != 0 by {
        assert(text[k - at] != 0);
    }
    lemma_text_ends(blob, at, at, at + text.len());
    assert(blob.subrange(at, at + text.len()) =~= text);
}

/// The token 1 and a name, up to the next multiple of four, open a node of that
/// name without properties; a node that was open is done.
pub proof fn beginning_opens_a_node(
    blob: Seq<u8>,
    at: int,
    nodes: Seq<NodeInfo>,
    open_node: Option<NodeInfo>,
    name: Seq<u8>,
    next: int,
)
    requires
        token_starts(blob, at),
        blob[at] == 0 && blob[at + 1] == 0 && blob[at + 2] == 0 && blob[at + 3] == 1,
        text_stands(blob, at + 4, name),
        next_word(at + 4 + name.len() + 1, next),
    ensures
        nodes_from(blob, at, nodes, open_node) == nodes_from(
            blob,
            next,
            with_open(nodes, open_node),
            Some(NodeInfo { name, reg: None, compatible: None }),
        ),
{
    big_endian_bytes_add_up(blob, at);
    lemma_text(blob, at + 4, name);
}

/// The token 3, the length of a value, where its name stands among the strings,
/// and the value, up to the next multiple of four, give the open node that
/// property: "reg" and "compatible" are kept, others are passed over.
pub proof fn property_is_given_to_the_open_node(
    blob: Seq<u8>,
    at: int,
    nodes: Seq<NodeInfo>,
    open_node: Option<NodeInfo>,
    name: Seq<u8>,
    value: Seq<u8>,
    next: int,
)
    requires
        token_starts(blob, at),
        blob[at] == 0 && blob[at + 1] == 0 && blob[at + 2] == 0 && blob[at + 3] == 3,
        at + 12 + value.len() <= blob.len(),
        be(blob, at + 4, 4) == value.len(),
        blob.subrange(at + 12, at + 12 + value.len()) == value,
        text_stands(blob, be(blob, 12, 4) as int + be(blob, at + 8, 4), name),
        next_word(at + 12 + value.len(), next),
    ensures
        nodes_from(blob, at, nodes, open_node) == nodes_from(
            blob,
            next,
            nodes,
            match open_node {
                Some(node) => Some(
                    NodeInfo {
                        name: node.name,
                        reg: if name == seq![114u8, 101, 103] {
                            Some(value)
                        } else {
                            node.reg
                        },
                        compatible: if name == seq![
                            99u8, 111, 109, 112, 97, 116, 105, 98, 108, 101,
                        ] {
                            Some(value)
                        } else {
                            node.compatible
                        },
                    },
                ),
                None => None,
            },
        ),
{
    lemma_names();
    big_endian_bytes_add_up(blob, at);
    lemma_text(blob, be(blob, 12, 4) as int + be(blob, at + 8, 4), name);
    assert(seq![114u8, 101, 103].len() != seq![
        99u8, 111, 109, 112, 97, 116, 105, 98, 108, 101,
    ].len());
}

/// The token 2 ends the open node, and the token 4 means nothing.
pub proof fn ends_close_and_fillers_do_nothing(
    blob: Seq<u8>,
    at: int,
    nodes: Seq<NodeInfo>,
    open_node: Option<NodeInfo>,
)
    requires
        token_starts(blob, at),
        blob[at] == 0 && blob[at + 1] == 0 && blob[at + 2] == 0,
    ensures
        blob[at + 3] == 2 ==> nodes_from(blob, at, nodes, open_node) == nodes_from(
            blob,
            at + 4,
            with_open(nodes, open_node),
            None,
        ),
        blob[at + 3] == 4 ==> nodes_from(blob, at, nodes, open_node) == nodes_from(
            blob,
            at + 4,
            nodes,
            open_node,
        ),
{
    big_endian_bytes_add_up(blob, at);
}

/// The token 9, the end of the structure block, and the end of the blob end the
/// tree; what was found stays found.
pub proof fn tree_ends_at_its_last_token(
    blob: Seq<u8>,
    at: int,
    nodes: Seq<NodeInfo>,
    open_node: Option<NodeInfo>,
)
    requires
        0 <= at,
        !token_starts(blob, at) || (blob[at] == 0 && blob[at + 1] == 0 && blob[at + 2] == 0
            && blob[at + 3] == 9),
    ensures
        nodes_from(blob, at, nodes, open_node) == with_open(nodes, open_node),
{
    big_endian_bytes_add_up(blob, at);
}

proof fn lemma_text_never_ends(blob: Seq<u8>, from: int, at: int)
    requires
        0 <= from <= at,
        forall|k: int| from <= k < blob.len() ==> #[trigger] blob[k] != 0,
    ensures
        terminator(blob, at) == blob.len(),
    decreases blob.len() - at,
{
    if at < blob.len() {
        assert(blob[at] != 0);
        lemma_text_never_ends(blob, from, at + 1);
    }
}

/// A token of another number, and one that the blob cuts off, ends the tree: a
/// node or a property whose name never ends, or a property whose value is not all
/// there.
pub proof fn broken_token_ends_the_tree(
    blob: Seq<u8>,
    at: int,
    nodes: Seq<NodeInfo>,
    open_node: Option<NodeInfo>,
)
    requires
        token_starts(blob, at),
        ({
            let number = be(blob, at, 4);
            let name_at = be(blob, 12, 4) as int + be(blob, at + 8, 4);
            ||| number == 0
            ||| number > 4
            ||| number == 1 && forall|k: int| at + 4 <= k < blob.len() ==> #[trigger] blob[k] != 0
            ||| number == 3 && at + 12 > blob.len()
            ||| number == 3 && at + 12 + be(blob, at + 4, 4) > blob.len()
            ||| number == 3 && forall|k: int| name_at <= k < blob.len() ==> #[trigger] blob[k] != 0
        }),
    ensures
        nodes_from(blob, at, nodes, open_node) == with_open(nodes, open_node),
{
    let number = be(blob, at, 4);
    let name_at = be(blob, 12, 4) as int + be(blob, at + 8, 4);
    if number == 1 {
        lemma_text_never_ends(blob, at + 4, at + 4);
    }
    if number == 3 && forall|k: int| name_at <= k < blob.len() ==> #[trigger] blob[k] != 0 {
        lemma_text_never_ends(blob, name_at, name_at);
    }
}

/// The node's name starts with "memory" and its `reg` has room for an address and
/// a size.
pub open spec fn is_memory_node(node: NodeInfo) -> bool {
    &&& node.name.len() >= 6
    &&& node.name[0] == 109 && node.name[1] == 101 && node.name[2] == 109 && node.name[3] == 111
        && node.name[4] == 114 && node.name[5] == 121
    &&& node.reg matches Some(v) && v.len() >= 16
}

/// `text` stands somewhere in what the node is compatible with.
pub open spec fn claims(node: NodeInfo, text: Seq<u8>) -> bool {
    node.compatible matches Some(c) && exists|i: int|
        #![trigger c.subrange(i, i + text.len())]
        0 <= i && i + text.len() <= c.len() && c.subrange(i, i + text.len()) == text
}

/// The node is compatible with "riscv,plic0" and its `reg` has room for an
/// address.
pub open spec fn is_plic_node(node: NodeInfo) -> bool {
    &&& claims(node, seq![114u8, 105, 115, 99, 118, 44, 112, 108, 105, 99, 48])
    &&& node.reg matches Some(v) && v.len() >= 8
}

/// The node is compatible with "iommu".
pub open spec fn is_iommu_node(node: NodeInfo) -> bool {
    claims(node, seq![105u8, 111, 109, 109, 117])
}

/// The eight bytes of `reg` from `at` on, as a big-endian number.
pub open spec fn reg_value(node: NodeInfo, at: int) -> int {
    let v = node.reg->0;
    0x100_0000_0000_0000 * v[at] + 0x1_0000_0000_0000 * v[at + 1] + 0x100_0000_0000 * v[at + 2]
        + 0x1_0000_0000 * v[at + 3] + 0x100_0000 * v[at + 4] + 0x1_0000 * v[at + 5] + 0x100 * v[at
        + 6] + v[at + 7]
}

proof fn lemma_nodes_are_as_said(node: NodeInfo)
    ensures
        node.gives_memory() <==> is_memory_node(node),
        node.gives_plic() <==> is_plic_node(node),
        node.is_compatible("iommu".spec_bytes()) <==> is_iommu_node(node),
{
    lemma_names();
    let m = seq![109u8, 101, 109, 111, 114, 121];
    if node.name.len() >= 6 {
        let head = node.name.subrange(0, 6);
        assert(head[0] == node.name[0] && head[1] == node.name[1] && head[2] == node.name[2]
            && head[3] == node.name[3] && head[4] == node.name[4] && head[5] == node.name[5]);
        if is_memory_node(node) {
            assert(head =~= m);
        }
    }
    let plic = seq![114u8, 105, 115, 99, 118, 44, 112, 108, 105, 99, 48];
    let iommu = seq![105u8, 111, 109, 109, 117];
    if let Some(c) = node.compatible {
        assert forall|text: Seq<u8>| #[trigger] occurs(c, text) == claims(node, text) by {
            if occurs(c, text) {
                let i = choose|i: int| occurs_at(c, text, i);
                assert(c.subrange(i, i + text.len()) == text);
            }
            if claims(node, text) {
                let i = choose|i: int|
                    #![trigger c.subrange(i, i + text.len())]
                    0 <= i && i + text.len() <= c.len() && c.subrange(i, i + text.len()) == text;
                assert(occurs_at(c, text, i));
            }
        }
        assert(occurs(c, plic) == claims(node, plic));
        assert(occurs(c, iommu) == claims(node, iommu));
    }
}

proof fn lemma_last(nodes: Seq<NodeInfo>, i: int)
    requires
        0 <= i < nodes.len(),
    ensures
        is_memory_node(nodes[i]) && (forall|j: int|
            i < j < nodes.len() ==> !is_memory_node(#[trigger] nodes[j])) ==> last_memory(nodes)
            == Some(nodes[i]),
        is_plic_node(nodes[i]) && (forall|j: int|
            i < j < nodes.len() ==> !is_plic_node(#[trigger] nodes[j])) ==> last_plic(nodes)
            == Some(nodes[i]),
    decreases nodes.len(),
{
    let last = nodes.len() - 1;
    lemma_nodes_are_as_said(nodes[last]);
    if i < last {
        let front = nodes.drop_last();
        assert forall|j: int| i < j < front.len() implies front[j] == #[trigger] nodes[j] by {}
        lemma_last(front, i);
        if is_memory_node(nodes[i]) && (forall|j: int|
            i < j < nodes.len() ==> !is_memory_node(#[trigger] nodes[j])) {
            assert(!is_memory_node(nodes[last]));
            assert forall|j: int| i < j < front.len() implies !is_memory_node(
                #[trigger] front[j],
            ) by {
                assert(front[j] == nodes[j]);
            }
        }
        if is_plic_node(nodes[i]) && (forall|j: int|
            i < j < nodes.len() ==> !is_plic_node(#[trigger] nodes[j])) {
            assert(!is_plic_node(nodes[last]));
            assert forall|j: int| i < j < front.len() implies !is_plic_node(
                #[trigger] front[j],
            ) by {
                assert(front[j] == nodes[j]);
            }
        }
    }
}

proof fn lemma_none(nodes: Seq<NodeInfo>)
    ensures
        (forall|j: int| 0 <= j < nodes.len() ==> !is_memory_node(#[trigger] nodes[j]))
            ==> last_memory(nodes) is None,
        (forall|j: int| 0 <= j < nodes.len() ==> !is_plic_node(#[trigger] nodes[j])) ==> last_plic(
            nodes,
        ) is None,
    decreases nodes.len(),
{
    if nodes.len() > 0 {
        let last = nodes.len() - 1;
        lemma_nodes_are_as_said(nodes[last]);
        let front = nodes.drop_last();
        lemma_none(front);
        if forall|j: int| 0 <= j < nodes.len() ==> !is_memory_node(#[trigger] nodes[j]) {
            assert(!is_memory_node(nodes[last]));
            assert forall|j: int| 0 <= j < front.len() implies !is_memory_node(
                #[trigger] front[j],
            ) by {
                assert(front[j] == nodes[j]);
            }
        }
        if forall|j: int| 0 <= j < nodes.len() ==> !is_plic_node(#[trigger] nodes[j]) {
            assert(!is_plic_node(nodes[last]));
            assert forall|j: int| 0 <= j < front.len() implies !is_plic_node(
                #[trigger] front[j],
            ) by {
                assert(front[j] == nodes[j]);
            }
        }
    }
}

/// The memory range is the address and the size, all 64 bits of each, in `reg` of
/// the last node that gives one.
pub proof fn memory_is_what_the_last_node_says(
    found: DtDiscoveryResult,
    nodes: Seq<NodeInfo>,
    i: int,
    base: u64,
    size: u64,
)
    requires
        found.reports(nodes),
        0 <= i < nodes.len(),
        is_memory_node(nodes[i]),
        forall|j: int| i < j < nodes.len() ==> !is_memory_node(#[trigger] nodes[j]),
        reg_value(nodes[i], 0) == base,
        reg_value(nodes[i], 8) == size,
    ensures
        found.memory_base == Some(base),
        found.memory_size == Some(size),
{
    lemma_last(nodes, i);
    big_endian_bytes_add_up(nodes[i].reg->0, 0);
    big_endian_bytes_add_up(nodes[i].reg->0, 8);
}

/// The interrupt controller's base is the address, all 64 bits of it, in `reg` of
/// the last node that gives one.
pub proof fn plic_is_where_the_last_node_says(
    found: DtDiscoveryResult,
    nodes: Seq<NodeInfo>,
    i: int,
    base: u64,
)
    requires
        found.reports(nodes),
        0 <= i < nodes.len(),
        is_plic_node(nodes[i]),
        forall|j: int| i < j < nodes.len() ==> !is_plic_node(#[trigger] nodes[j]),
        reg_value(nodes[i], 0) == base,
    ensures
        found.plic_base == Some(base),
{
    lemma_last(nodes, i);
    big_endian_bytes_add_up(nodes[i].reg->0, 0);
}

/// Nothing is found that no node gives, and an IOMMU is found exactly if some node
/// is compatible with one.
pub proof fn nothing_is_made_up(found: DtDiscoveryResult, nodes: Seq<NodeInfo>)
    requires
        found.reports(nodes),
    ensures
        (forall|j: int| 0 <= j < nodes.len() ==> !is_memory_node(#[trigger] nodes[j]))
            ==> found.memory_base is None && found.memory_size is None,
        (forall|j: int| 0 <= j < nodes.len() ==> !is_plic_node(#[trigger] nodes[j]))
            ==> found.plic_base is None,
        found.iommu_present <==> exists|j: int|
            0 <= j < nodes.len() && is_iommu_node(#[trigger] nodes[j]),
{
    lemma_none(nodes);
    assert(any_iommu(nodes) <==> exists|j: int|
        0 <= j < nodes.len() && is_iommu_node(#[trigger] nodes[j])) by {
        if any_iommu(nodes) {
            let j = choose|j: int|
                0 <= j < nodes.len() && (#[trigger] nodes[j]).is_compatible("iommu".spec_bytes());
            lemma_nodes_are_as_said(nodes[j]);
            assert(is_iommu_node(nodes[j]));
        }
        if exists|j: int| 0 <= j < nodes.len() && is_iommu_node(#[trigger] nodes[j]) {
            let j = choose|j: int| 0 <= j < nodes.len() && is_iommu_node(#[trigger] nodes[j]);
            lemma_nodes_are_as_said(nodes[j]);
            assert(nodes[j].is_compatible("iommu".spec_bytes()));
        }
    }
}

/// The machine's memory is one usable region: what the findings say, or 128 MiB
/// from 2 GiB on if they say nothing; its interrupt controller is where they say,
/// or at 0x0C00_0000.
pub proof fn riscv64_memory_is_as_found(memory: Memory, found: DtDiscoveryResult)
    requires
        memory.described_by(found),
    ensures
        memory.regions().len() == 1,
        memory.regions()[0].kind is Usable,
        memory.regions()[0].base_addr == match found.memory_base {
            Some(base) => base,
            None => 0x8000_0000,
        },
        memory.regions()[0].length_bytes == match found.memory_size {
            Some(size) => size,
            None => 0x0800_0000,
        },
        memory.regions()[0].behind_iommu == found.iommu_present,
        memory.iommu_present == found.iommu_present,
        memory.plic_base == match found.plic_base {
            Some(base) => base,
            None => 0x0C00_0000,
        },
{
}

/// A machine whose device tree has a last memory node has the memory that this
/// node gives, from its first byte to its last.
pub proof fn riscv64_memory_is_read_from_the_tree(
    memory: Memory,
    blob: Seq<u8>,
    i: int,
    base: u64,
    size: u64,
)
    requires
        memory.read_from(blob),
        0 <= i < tree_nodes(blob).len(),
        is_memory_node(tree_nodes(blob)[i]),
        forall|j: int|
            i < j < tree_nodes(blob).len() ==> !is_memory_node(#[trigger] tree_nodes(blob)[j]),
        reg_value(tree_nodes(blob)[i], 0) == base,
        reg_value(tree_nodes(blob)[i], 8) == size,
    ensures
        memory.regions().len() == 1,
        memory.regions()[0].base_addr == base,
        memory.regions()[0].length_bytes == size,
        memory.regions()[0].kind is Usable,
{
    let found = choose|found: DtDiscoveryResult| #[trigger]
        found.reports(tree_nodes(blob)) && memory.described_by(found);
    memory_is_what_the_last_node_says(found, tree_nodes(blob), i, base, size);
}

} // verus!
