//! The minimal page tables built at boot: a root table and a fixed pool of
//! further tables, in one contiguous block of physical memory.

use vstd::prelude::*;

use crate::hal::error::HalError;
use crate::hal::memory::VirtAddr;
use crate::manifest::raw::MemoryRegionRaw;

verus! {

/// The page size of every format.
pub const PAGE_SIZE: u64 = 4096;

/// How many entries a table has.
pub const ENTRIES_PER_TABLE: usize = 512;

/// How many tables there are besides the root.
pub const TABLE_POOL_SIZE: usize = 16;

/// How many words all tables hold together.
pub const TABLE_WORDS: usize = 8704;

/// The first physical address that the root and the pool cannot reach into.
pub const TABLE_ADDRESS_LIMIT: u64 = 0x0001_0000_0000_0000;

/// How an architecture encodes its page tables.
#[derive(Debug, Clone, Copy, PartialEq, Eq, Structural)]
pub enum PageFormat {
    /// Four levels; the address is in bits 12 to 51.
    X86_64,
    /// Four levels; the address is in bits 12 to 47.
    Arm64,
    /// Three levels; the page number is in bits 10 to 53.
    Sv39,
}

impl PageFormat {
    /// How many levels of tables a walk goes through.
    pub open spec fn levels(self) -> nat {
        match self {
            PageFormat::X86_64 => 4,
            PageFormat::Arm64 => 4,
            PageFormat::Sv39 => 3,
        }
    }

    /// How many pages the tables can map: 512 to the power of the levels.
    pub open spec fn page_limit(self) -> int {
        match self {
            PageFormat::X86_64 => 0x10_0000_0000,
            PageFormat::Arm64 => 0x10_0000_0000,
            PageFormat::Sv39 => 0x800_0000,
        }
    }

    /// The entry that points at the next table.
    pub open spec fn table_word(self, addr: u64) -> u64 {
        match self {
            PageFormat::X86_64 => addr | 0x7,
            PageFormat::Arm64 => addr | 0x3,
            PageFormat::Sv39 => ((addr >> 12) << 10) | 0x1,
        }
    }

    /// The address that an entry points at.
    pub open spec fn target(self, word: u64) -> u64 {
        match self {
            PageFormat::X86_64 => word & 0x000F_FFFF_FFFF_F000,
            PageFormat::Arm64 => word & 0x0000_FFFF_FFFF_F000,
            PageFormat::Sv39 => ((word >> 10) & 0x0FFF_FFFF_FFFF) << 12,
        }
    }

    /// The entry that maps a page: `flags` and, on top of them, what every
    /// mapped page has.
    pub open spec fn leaf_word(self, phys: u64, flags: u64) -> u64 {
        match self {
            PageFormat::X86_64 => (phys & 0x000F_FFFF_FFFF_F000) | flags | 0x1,
            PageFormat::Arm64 => (phys & 0x0000_FFFF_FFFF_F000) | flags | 0x403,
            PageFormat::Sv39 => ((phys >> 12) << 10) | flags | 0xC1,
        }
    }

    /// Exec form of `levels`.
    pub fn level_count(self) -> (r: usize)
        ensures
            r == self.levels(),
    {
        match self {
            PageFormat::X86_64 => 4,
            PageFormat::Arm64 => 4,
            PageFormat::Sv39 => 3,
        }
    }

    /// Exec form of `page_limit`.
    pub fn mappable_pages(self) -> (r: u64)
        ensures
            r == self.page_limit(),
    {
        match self {
            PageFormat::X86_64 => 0x10_0000_0000,
            PageFormat::Arm64 => 0x10_0000_0000,
            PageFormat::Sv39 => 0x800_0000,
        }
    }

    /// Encodes a pointer to the table at `addr`.
    pub fn encode_table(self, addr: u64) -> (r: u64)
        ensures
            r == self.table_word(addr),
    {
        match self {
            PageFormat::X86_64 => addr | 0x7,
            PageFormat::Arm64 => addr | 0x3,
            PageFormat::Sv39 => ((addr >> 12) << 10) | 0x1,
        }
    }

    /// Decodes the address that an entry points at.
    pub fn decode_target(self, word: u64) -> (r: u64)
        ensures
            r == self.target(word),
    {
        match self {
            PageFormat::X86_64 => word & 0x000F_FFFF_FFFF_F000,
            PageFormat::Arm64 => word & 0x0000_FFFF_FFFF_F000,
            PageFormat::Sv39 => ((word >> 10) & 0x0FFF_FFFF_FFFF) << 12,
        }
    }

    /// Encodes a mapped page.
    pub fn encode_leaf(self, phys: u64, flags: u64) -> (r: u64)
        ensures
            r == self.leaf_word(phys, flags),
    {
        match self {
            PageFormat::X86_64 => (phys & 0x000F_FFFF_FFFF_F000) | flags | 0x1,
            PageFormat::Arm64 => (phys & 0x0000_FFFF_FFFF_F000) | flags | 0x403,
            PageFormat::Sv39 => ((phys >> 12) << 10) | flags | 0xC1,
        }
    }
}

/// A pointer to a page-aligned table below 2^48 is present and decodes to the
/// address it was made from.
pub proof fn table_word_points_at_its_table(format: PageFormat, addr: u64)
    requires
        addr % PAGE_SIZE == 0,
        addr < TABLE_ADDRESS_LIMIT,
    ensures
        format.table_word(addr) & 1 == 1,
        format.target(format.table_word(addr)) == addr,
{
    assert((addr | 0x7) & 1 == 1 && (addr | 0x7) & 0x000F_FFFF_FFFF_F000 == addr && (addr | 0x3) & 1
        == 1 && (addr | 0x3) & 0x0000_FFFF_FFFF_F000 == addr && (((addr >> 12) << 10) | 0x1) & 1
        == 1 && (((((addr >> 12) << 10) | 0x1) >> 10) & 0x0FFF_FFFF_FFFF) << 12 == addr)
        by (bit_vector)
        requires
            addr % 4096 == 0,
            addr < 0x0001_0000_0000_0000,
    ;
}

/// A mapped page is present.
pub proof fn leaf_word_is_present(format: PageFormat, phys: u64, flags: u64)
    ensures
        format.leaf_word(phys, flags) & 1 == 1,
{
    assert(forall|x: u64| #![auto] (x | 0x1) & 1 == 1 && (x | 0x403) & 1 == 1 && (x | 0xC1) & 1
        == 1) by (bit_vector);
}

/// `page` shifted right by `k` table levels.
pub open spec fn shrink(page: int, k: nat) -> int
    decreases k,
{
    if k == 0 {
        page
    } else {
        shrink(page, (k - 1) as nat) / 512
    }
}

/// A table, named by its depth below the root and by the page bits that lead
/// to it.
pub struct Node {
    pub depth: int,
    pub prefix: int,
}

/// The page tables.
pub struct PageTables {
    pub format: PageFormat,
    /// Physical address of the root; the pool follows it.
    pub base: u64,
    pub words: [u64; TABLE_WORDS],
    /// How many tables of the pool are in use.
    pub used: usize,
    /// Which table is which.
    pub nodes: Ghost<Seq<Node>>,
}

impl PageTables {
    /// Entry `i` of table `t`; the root is table zero.
    pub open spec fn word(self, t: int, i: int) -> u64 {
        self.words@[t * 512 + i]
    }

    /// The table that a pointer entry points at.
    pub open spec fn table_of(self, word: u64) -> int {
        (self.format.target(word) - self.base) / 4096
    }

    /// What the memory management unit finds for `page` when it starts at
    /// `table` with `k` further levels to go.
    pub open spec fn walk(self, table: int, k: nat, page: int) -> Option<u64>
        decreases k,
    {
        let word = self.word(table, shrink(page, k) % 512);
        if word & 1 == 0 {
            None
        } else if k == 0 {
            Some(word)
        } else {
            self.walk(self.table_of(word), (k - 1) as nat, page)
        }
    }

    /// What the memory management unit finds for `page`.
    pub open spec fn lookup(self, page: int) -> Option<u64> {
        self.walk(0, (self.format.levels() - 1) as nat, page)
    }

    /// Table `t` is `node`.
    pub open spec fn is_node(self, t: int, node: Node) -> bool {
        0 <= t <= self.used && self.nodes@[t] == node
    }

    /// Some table is `node`.
    pub open spec fn has(self, node: Node) -> bool {
        exists|t: int| self.is_node(t, node)
    }

    /// The tables in existence.
    pub open spec fn node_set(self) -> Set<Node> {
        self.nodes@.to_set()
    }

    /// The child of `node` at entry `i`.
    pub open spec fn child(node: Node, i: int) -> Node {
        Node { depth: node.depth + 1, prefix: node.prefix * 512 + i }
    }

    /// The address of table `t`.
    pub open spec fn address(self, t: int) -> int {
        self.base + t * 4096
    }

    /// Entry `i` of table `t` agrees with the tables in existence: it is present
    /// exactly if the child exists, and then points at it.
    pub open spec fn linked(self, t: int, i: int) -> bool {
        let w = self.word(t, i);
        let c = Self::child(self.nodes@[t], i);
        if w & 1 == 0 {
            !self.has(c)
        } else {
            exists|u: int|
                #[trigger]
                self.is_node(u, c) && w == self.format.table_word(self.address(u) as u64)
        }
    }

    /// The block lies below 2^48 at a page boundary, the tables in use form a
    /// tree below the root, and the others are empty.
    pub open spec fn well_formed(self) -> bool {
        let last = self.format.levels() - 1;
        &&& self.base % PAGE_SIZE == 0
        &&& self.base + 17 * 4096 <= TABLE_ADDRESS_LIMIT
        &&& self.used <= TABLE_POOL_SIZE
        &&& self.nodes@.len() == self.used + 1
        &&& self.nodes@[0] == (Node { depth: 0, prefix: 0 })
        &&& forall|t: int| 0 <= t <= self.used ==> 0 <= (#[trigger] self.nodes@[t]).depth <= last
        &&& forall|t: int, u: int|
            0 <= t < u <= self.used ==> #[trigger] self.nodes@[t] != #[trigger] self.nodes@[u]
        &&& forall|t: int|
            1 <= t <= self.used ==> (#[trigger] self.nodes@[t]).depth > 0 && self.has(
                Node { depth: self.nodes@[t].depth - 1, prefix: self.nodes@[t].prefix / 512 },
            )
        &&& forall|t: int, i: int|
            0 <= t <= self.used && 0 <= i < 512 && self.nodes@[t].depth < last
                ==> #[trigger] self.linked(t, i)
        &&& forall|t: int, i: int|
            self.used < t <= TABLE_POOL_SIZE && 0 <= i < 512 ==> #[trigger] self.word(t, i) == 0
    }

    /// The last table on the way to `page`.
    pub open spec fn last_node(self, page: int) -> Node {
        Node { depth: self.format.levels() - 1, prefix: page / 512 }
    }

    /// The entry for `page`, read off the tables in existence.
    pub open spec fn entry(self, page: int) -> Option<u64> {
        if self.has(self.last_node(page)) {
            let t = choose|t: int| self.is_node(t, self.last_node(page));
            let w = self.word(t, page % 512);
            if w & 1 == 0 {
                None
            } else {
                Some(w)
            }
        } else {
            None
        }
    }

    /// If the table at the end of the way to `page` exists, so does every table
    /// on the way.
    proof fn lemma_way_exists(self, page: int, k: nat)
        requires
            self.well_formed(),
            self.has(self.last_node(page)),
            1 <= k <= self.format.levels(),
        ensures
            self.has(Node { depth: self.format.levels() - k, prefix: shrink(page, k) }),
        decreases k,
    {
        if k == 1 {
            assert(shrink(page, 0) == page);
            assert(shrink(page, 1) == page / 512);
        } else {
            self.lemma_way_exists(page, (k - 1) as nat);
            let below = Node {
                depth: self.format.levels() - (k - 1),
                prefix: shrink(page, (k - 1) as nat),
            };
            let t = choose|t: int| self.is_node(t, below);
            assert(self.is_node(t, below));
            assert(t != 0);
        }
    }

    /// The walk from a table on the way finds the entry for `page`.
    proof fn lemma_walk_finds_entry(self, t: int, k: nat, page: int)
        requires
            self.well_formed(),
            k < self.format.levels(),
            self.is_node(
                t,
                Node { depth: self.format.levels() - 1 - k, prefix: shrink(page, k + 1) },
            ),
        ensures
            self.walk(t, k, page) == self.entry(page),
        decreases k,
    {
        let i = shrink(page, k) % 512;
        let w = self.word(t, i);
        assert(shrink(page, k + 1) == shrink(page, k) / 512);
        if k == 0 {
            let node = self.last_node(page);
            assert(self.is_node(t, node));
            let u = choose|u: int| self.is_node(u, node);
            assert(self.is_node(u, node));
            assert(u == t);
        } else {
            assert(self.linked(t, i));
            let c = Self::child(self.nodes@[t], i);
            assert(c == (Node {
                depth: self.format.levels() - k,
                prefix: shrink(page, k),
            }));
            if w & 1 == 0 {
                if self.has(self.last_node(page)) {
                    self.lemma_way_exists(page, k);
                }
            } else {
                let u = choose|u: int|
                    #[trigger]
                    self.is_node(u, c) && w == self.format.table_word(self.address(u) as u64);
                table_word_points_at_its_table(self.format, self.address(u) as u64);
                assert(self.table_of(w) == u);
                self.lemma_walk_finds_entry(u, (k - 1) as nat, page);
            }
        }
    }

    /// What the memory management unit finds is the entry read off the tables in
    /// existence.
    proof fn lemma_lookup_is_entry(self, page: int)
        requires
            self.well_formed(),
            0 <= page < self.format.page_limit(),
        ensures
            self.lookup(page) == self.entry(page),
    {
        reveal_with_fuel(shrink, 5);
        assert(self.is_node(0, Node { depth: 0, prefix: 0 }));
        self.lemma_walk_finds_entry(0, (self.format.levels() - 1) as nat, page);
    }

    /// The tables at depths one to `d` on the way to `page`.
    pub open spec fn way_to_depth(format: PageFormat, page: int, d: nat) -> Set<Node>
        decreases d,
    {
        if d == 0 {
            Set::empty()
        } else {
            Self::way_to_depth(format, page, (d - 1) as nat).insert(
                Node { depth: d as int, prefix: shrink(page, (format.levels() - d) as nat) },
            )
        }
    }

    /// The tables below the root on the way to `page`.
    pub open spec fn way(format: PageFormat, page: int) -> Set<Node> {
        Self::way_to_depth(format, page, (format.levels() - 1) as nat)
    }

    /// `word` may be written as the entry for `page`: nothing is mapped there,
    /// or exactly that.
    pub open spec fn compatible(self, page: int, word: u64) -> bool {
        self.lookup(page) is None || self.lookup(page) == Some(word)
    }

    proof fn lemma_way_is_finite(format: PageFormat, page: int, d: nat)
        ensures
            Self::way_to_depth(format, page, d).finite(),
        decreases d,
    {
        if d > 0 {
            Self::lemma_way_is_finite(format, page, (d - 1) as nat);
        }
    }

    proof fn lemma_way_grows(format: PageFormat, page: int, d: nat, e: nat)
        requires
            d <= e,
        ensures
            Self::way_to_depth(format, page, d).subset_of(Self::way_to_depth(format, page, e)),
        decreases e,
    {
        if d < e {
            Self::lemma_way_grows(format, page, d, (e - 1) as nat);
        }
    }

    /// The tables in existence are the root and those in use.
    proof fn lemma_node_count(self)
        requires
            self.well_formed(),
        ensures
            self.node_set().finite(),
            self.node_set().len() == self.used + 1,
            forall|n: Node| self.has(n) <==> #[trigger] self.node_set().contains(n),
    {
        assert(self.nodes@.no_duplicates());
        self.nodes@.unique_seq_to_set();
        vstd::seq_lib::seq_to_set_is_finite(self.nodes@);
        assert forall|n: Node| self.has(n) <==> #[trigger] self.node_set().contains(n) by {
            if self.has(n) {
                let t = choose|t: int| self.is_node(t, n);
                assert(self.nodes@[t] == n);
            }
            if self.nodes@.contains(n) {
                let t = choose|t: int| 0 <= t < self.nodes@.len() && self.nodes@[t] == n;
                assert(self.is_node(t, n));
            }
        }
    }

    /// Empty tables at physical address `base`.
    pub fn new(format: PageFormat, base: u64) -> (r: Self)
        requires
            base % PAGE_SIZE == 0,
            base + 17 * 4096 <= TABLE_ADDRESS_LIMIT,
        ensures
            r.well_formed(),
            r.format == format,
            r.base == base,
            r.used == 0,
            r.node_set() == set![Node { depth: 0, prefix: 0 }],
            forall|page: int|
                0 <= page < format.page_limit() ==> #[trigger] r.lookup(page) is None,
    {
        let nodes: Ghost<Seq<Node>> = Ghost(Seq::empty().push(Node { depth: 0, prefix: 0 }));
        let r = PageTables { format, base, words: [0; 8704], used: 0, nodes };
        proof {
            assert(0u64 & 1 == 0) by (bit_vector);
            assert(r.nodes@.len() == 1);
            assert forall|t: int, i: int|
                0 <= t <= r.used && 0 <= i < 512 && r.nodes@[t].depth < format.levels()
                    - 1 implies #[trigger] r.linked(t, i) by {
                assert(r.word(t, i) == 0);
                let c = Self::child(r.nodes@[t], i);
                assert(!r.has(c));
            }
            assert(r.well_formed());
            assert(r.node_set() =~= set![Node { depth: 0, prefix: 0 }]) by {
                r.lemma_node_count();
                assert forall|n: Node| r.node_set().contains(n) implies n == (Node {
                    depth: 0,
                    prefix: 0,
                }) by {
                    let t = choose|t: int| r.is_node(t, n);
                }
                assert(r.is_node(0, Node { depth: 0, prefix: 0 }));
            }
            assert forall|page: int| 0 <= page < format.page_limit() implies #[trigger] r.lookup(
                page,
            ) is None by {
                r.lemma_lookup_is_entry(page);
                let node = r.last_node(page);
                if r.has(node) {
                    let t = choose|t: int| r.is_node(t, node);
                    assert(r.nodes@[t] == node);
                }
            }
        }
        r
    }

    /// The table behind entry `index` of `table`, taken from the pool if there
    /// is none yet.
    fn enter(&mut self, table: usize, index: usize) -> (r: Result<usize, HalError>)
        requires
            old(self).well_formed(),
            table <= old(self).used,
            index < 512,
            old(self).nodes@[table as int].depth < old(self).format.levels() - 1,
        ensures
            final(self).well_formed(),
            final(self).format == old(self).format,
            final(self).base == old(self).base,
            match r {
                Ok(u) => {
                    let c = Self::child(old(self).nodes@[table as int], index as int);
                    &&& final(self).is_node(u as int, c)
                    &&& final(self).node_set() == old(self).node_set().insert(c)
                    &&& forall|page: int| #[trigger] final(self).entry(page) == old(self).entry(page)
                },
                Err(e) => {
                    &&& e == HalError::InvalidMemoryRegion
                    &&& *final(self) == *old(self)
                    &&& old(self).used == TABLE_POOL_SIZE
                    &&& !old(self).has(
                        Self::child(old(self).nodes@[table as int], index as int),
                    )
                },
            },
    {
        let ghost before = *self;
        let ghost t = table as int;
        let ghost i = index as int;
        let ghost c = Self::child(before.nodes@[t], i);
        let slot: usize = table * 512 + index;
        let word: u64 = self.words[slot];
        assert(before.linked(t, i));
        assert(word == before.word(t, i));
        if word & 1 != 0 {
            assert(word & 1 == 0 || word & 1 == 1) by (bit_vector);
            proof {
                let u = choose|u: int|
                    #[trigger]
                    before.is_node(u, c) && word == before.format.table_word(
                        before.address(u) as u64,
                    );
                table_word_points_at_its_table(before.format, before.address(u) as u64);
                assert(before.table_of(word) == u);
                before.lemma_node_count();
                assert(before.has(c));
                assert(before.node_set().insert(c) =~= before.node_set());
            }
            let child: usize = ((self.format.decode_target(word) - self.base) / 4096) as usize;
            return Ok(child);
        }
        if self.used >= TABLE_POOL_SIZE {
            return Err(HalError::InvalidMemoryRegion);
        }
        let child: usize = self.used + 1;
        let entry: u64 = self.format.encode_table(self.base + child as u64 * 4096);
        self.words[slot] = entry;
        self.used = child;
        self.nodes = Ghost(self.nodes@.push(c));
        proof {
            self.lemma_enter_keeps(before, t, i);
        }
        Ok(child)
    }

    /// Linking a fresh table keeps everything well formed and maps nothing new.
    proof fn lemma_enter_keeps(self, before: Self, t: int, i: int)
        requires
            before.well_formed(),
            0 <= t <= before.used < TABLE_POOL_SIZE,
            0 <= i < 512,
            before.nodes@[t].depth < before.format.levels() - 1,
            !before.has(Self::child(before.nodes@[t], i)),
            self.format == before.format,
            self.base == before.base,
            self.used == before.used + 1,
            self.nodes@ == before.nodes@.push(Self::child(before.nodes@[t], i)),
            self.words@ == before.words@.update(
                t * 512 + i,
                before.format.table_word(before.address(before.used + 1) as u64),
            ),
        ensures
            self.well_formed(),
            self.is_node(before.used + 1, Self::child(before.nodes@[t], i)),
            self.node_set() == before.node_set().insert(Self::child(before.nodes@[t], i)),
            forall|page: int| #[trigger] self.entry(page) == before.entry(page),
    {
        let c = Self::child(before.nodes@[t], i);
        let fresh = before.used + 1;
        let last = self.format.levels() - 1;
        assert(0u64 & 1 == 0) by (bit_vector);
        table_word_points_at_its_table(self.format, self.address(fresh) as u64);
        assert forall|u: int, n: Node| before.is_node(u, n) implies #[trigger] self.is_node(u, n) by {
        }
        assert forall|n: Node| #[trigger] self.has(n) implies before.has(n) || n == c by {
            let u = choose|u: int| self.is_node(u, n);
            if u <= before.used {
                assert(before.is_node(u, n));
            }
        }
        assert(self.is_node(fresh, c));
        assert forall|u: int, j: int|
            0 <= u <= TABLE_POOL_SIZE && 0 <= j < 512 && !(u == t && j == i) implies #[trigger]
            self.word(u, j) == before.word(u, j) by {
            assert(u * 512 + j != t * 512 + i);
        }
        assert forall|u: int, v: int| 0 <= u < v <= self.used implies #[trigger] self.nodes@[u]
            != #[trigger] self.nodes@[v] by {
            if v == fresh {
                assert(before.is_node(u, before.nodes@[u]));
            }
        }
        assert forall|u: int| 1 <= u <= self.used implies (#[trigger] self.nodes@[u]).depth > 0
            && self.has(
            Node { depth: self.nodes@[u].depth - 1, prefix: self.nodes@[u].prefix / 512 },
        ) by {
            if u == fresh {
                assert(self.is_node(t, before.nodes@[t]));
                assert(before.nodes@[t] == (Node { depth: c.depth - 1, prefix: c.prefix / 512 }));
            } else {
                let up = Node {
                    depth: before.nodes@[u].depth - 1,
                    prefix: before.nodes@[u].prefix / 512,
                };
                assert(before.has(up));
                let v = choose|v: int| before.is_node(v, up);
                assert(self.is_node(v, up));
            }
        }
        assert forall|u: int, j: int|
            0 <= u <= self.used && 0 <= j < 512 && self.nodes@[u].depth < last implies #[trigger]
            self.linked(u, j) by {
            let d = Self::child(self.nodes@[u], j);
            if u == fresh {
                assert(self.word(u, j) == before.word(u, j) == 0);
                if self.has(d) {
                    assert(before.has(d));
                    let v = choose|v: int| before.is_node(v, d);
                    assert(before.nodes@[v] == d);
                    assert(v != 0);
                    assert(before.has(Node { depth: d.depth - 1, prefix: d.prefix / 512 }));
                    assert(c == (Node { depth: d.depth - 1, prefix: d.prefix / 512 }));
                }
            } else if u == t && j == i {
                assert(self.word(u, j) == self.format.table_word(self.address(fresh) as u64));
                assert(self.is_node(fresh, d));
            } else {
                assert(before.linked(u, j));
                if before.word(u, j) & 1 == 0 {
                    if self.has(d) {
                        assert(d == c);
                        assert(before.nodes@[u] == before.nodes@[t]);
                        if u < t {
                            assert(before.nodes@[u] != before.nodes@[t]);
                        }
                        if t < u {
                            assert(before.nodes@[t] != before.nodes@[u]);
                        }
                    }
                } else {
                    let v = choose|v: int|
                        #[trigger]
                        before.is_node(v, d) && before.word(u, j) == before.format.table_word(
                            before.address(v) as u64,
                        );
                    assert(self.is_node(v, d));
                }
            }
        }
        assert(self.well_formed());
        self.lemma_node_count();
        before.lemma_node_count();
        assert(self.node_set() =~= before.node_set().insert(c)) by {
            assert forall|n: Node| before.has(n) implies #[trigger] self.has(n) by {
                let v = choose|v: int| before.is_node(v, n);
                assert(self.is_node(v, n));
            }
            assert(self.has(c));
        }
        assert forall|page: int| #[trigger] self.entry(page) == before.entry(page) by {
            let node = self.last_node(page);
            if before.has(node) {
                let u = choose|u: int| before.is_node(u, node);
                assert(self.is_node(u, node));
                let v = choose|v: int| self.is_node(v, node);
                assert(v == u);
                assert(u != t);
                assert(self.word(u, page % 512) == before.word(u, page % 512));
            } else if self.has(node) {
                let v = choose|v: int| self.is_node(v, node);
                assert(v == fresh) by {
                    if v <= before.used {
                        assert(before.is_node(v, node));
                    }
                }
                assert(self.word(v, page % 512) == before.word(v, page % 512));
            }
        }
    }

    /// Maps the page at `virt` to the frame at `phys`.
    pub fn map_page(&mut self, virt: u64, phys: u64, flags: u64) -> (r: Result<(), HalError>)
        requires
            old(self).well_formed(),
            virt % PAGE_SIZE == 0,
            virt / PAGE_SIZE < old(self).format.page_limit(),
        ensures
            final(self).well_formed(),
            final(self).format == old(self).format,
            final(self).base == old(self).base,
            ({
                let format = old(self).format;
                let page = virt as int / 4096;
                let word = format.leaf_word(phys, flags);
                let needed = old(self).node_set().union(Self::way(format, page));
                &&& r is Ok <==> old(self).compatible(page, word) && needed.len() <= 17
                &&& r is Ok ==> final(self).node_set() == needed
                &&& r is Ok ==> final(self).lookup(page) == Some(word)
                &&& r matches Err(e) ==> {
                    &&& e == HalError::InvalidMemoryRegion
                    &&& old(self).node_set().subset_of(final(self).node_set())
                    &&& final(self).node_set().subset_of(needed)
                    &&& needed.len() > 17 ==> final(self).node_set().len() == 17
                    &&& final(self).lookup(page) == old(self).lookup(page)
                }
                &&& forall|q: int|
                    0 <= q < format.page_limit() && q != page ==> #[trigger] final(self).lookup(q)
                        == old(self).lookup(q)
            }),
    {
        let ghost before = *self;
        let ghost format = self.format;
        let page: u64 = virt / 4096;
        let ghost p = page as int;
        let ghost needed = before.node_set().union(Self::way(format, p));
        let x1: u64 = page / 512;
        let x2: u64 = x1 / 512;
        let x3: u64 = x2 / 512;
        let chain: [u64; 4] = [page, x1, x2, x3];
        let levels: usize = self.format.level_count();
        let mut table: usize = 0;
        let mut k: usize = levels - 1;
        proof {
            reveal_with_fuel(shrink, 5);
            assert(self.is_node(0, Node { depth: 0, prefix: 0 }));
            assert(before.node_set() =~= before.node_set().union(
                Self::way_to_depth(format, p, 0),
            ));
            before.lemma_node_count();
            Self::lemma_way_is_finite(format, p, (format.levels() - 1) as nat);
            before.lemma_lookup_is_entry(p);
        }
        while k > 0
            invariant
                self.well_formed(),
                before.well_formed(),
                before == *old(self),
                self.format == format,
                before.format == format,
                self.base == before.base,
                levels == format.levels(),
                k < levels,
                p == page,
                p == virt as int / 4096,
                0 <= p < format.page_limit(),
                chain@.len() == 4,
                forall|j: int| 0 <= j < levels ==> #[trigger] chain@[j] == shrink(p, j as nat),
                self.is_node(
                    table as int,
                    Node { depth: levels - 1 - k, prefix: shrink(p, (k + 1) as nat) },
                ),
                self.node_set() == before.node_set().union(
                    Self::way_to_depth(format, p, (levels - 1 - k) as nat),
                ),
                needed == before.node_set().union(Self::way(format, p)),
                needed.finite(),
                before.lookup(p) == before.entry(p),
                forall|q: int| #[trigger] self.entry(q) == before.entry(q),
            decreases k,
        {
            let index: usize = (chain[k] % 512) as usize;
            let ghost mid = *self;
            let ghost c = Node { depth: levels - k, prefix: shrink(p, k as nat) };
            proof {
                assert(shrink(p, (k + 1) as nat) == shrink(p, k as nat) / 512);
                assert(Self::child(mid.nodes@[table as int], index as int) == c);
                Self::lemma_way_grows(
                    format,
                    p,
                    (levels - k) as nat,
                    (format.levels() - 1) as nat,
                );
                assert(Self::way_to_depth(format, p, (levels - k) as nat).contains(c));
                assert(mid.node_set().insert(c) =~= before.node_set().union(
                    Self::way_to_depth(format, p, (levels - k) as nat),
                ));
                assert(mid.node_set().insert(c).subset_of(needed));
            }
            match self.enter(table, index) {
                Ok(child) => {
                    table = child;
                },
                Err(e) => {
                    proof {
                        mid.lemma_node_count();
                        self.lemma_node_count();
                        assert(mid.node_set().insert(c).len() == 18);
                        vstd::set_lib::lemma_len_subset(mid.node_set().insert(c), needed);
                        self.lemma_lookup_is_entry(p);
                        assert forall|q: int| 0 <= q < format.page_limit() && q != p implies
                            #[trigger] self.lookup(q) == before.lookup(q) by {
                            self.lemma_lookup_is_entry(q);
                            before.lemma_lookup_is_entry(q);
                        }
                    }
                    return Err(e);
                },
            }
            k = k - 1;
        }
        let index: usize = (page % 512) as usize;
        let slot: usize = table * 512 + index;
        let ghost mid = *self;
        let word: u64 = self.format.encode_leaf(phys, flags);
        let present: u64 = self.words[slot];
        proof {
            mid.lemma_node_count();
            assert(mid.node_set() == needed);
            assert(shrink(p, 1) == p / 512) by {
                reveal_with_fuel(shrink, 3);
            }
            let node = mid.last_node(p);
            assert(mid.is_node(table as int, node));
            let u = choose|u: int| mid.is_node(u, node);
            assert(u == table);
            assert(present == mid.word(table as int, p % 512));
            assert(mid.entry(p) == before.entry(p));
        }
        if present & 1 != 0 && present != word {
            proof {
                mid.lemma_lookup_is_entry(p);
                assert forall|q: int| 0 <= q < format.page_limit() && q != p implies #[trigger]
                    mid.lookup(q) == before.lookup(q) by {
                    mid.lemma_lookup_is_entry(q);
                    before.lemma_lookup_is_entry(q);
                }
            }
            return Err(HalError::InvalidMemoryRegion);
        }
        self.words[slot] = word;
        proof {
            self.lemma_leaf_written(mid, table as int, p, word);
            leaf_word_is_present(format, phys, flags);
            self.lemma_lookup_is_entry(p);
            assert forall|q: int| 0 <= q < format.page_limit() && q != p implies #[trigger]
                self.lookup(q) == before.lookup(q) by {
                self.lemma_lookup_is_entry(q);
                before.lemma_lookup_is_entry(q);
            }
        }
        Ok(())
    }

    /// Writing the entry of a page changes that entry alone.
    proof fn lemma_leaf_written(self, before: Self, t: int, page: int, word: u64)
        requires
            before.well_formed(),
            0 <= page < before.format.page_limit(),
            before.is_node(t, before.last_node(page)),
            self.format == before.format,
            self.base == before.base,
            self.used == before.used,
            self.nodes == before.nodes,
            self.words@ == before.words@.update(t * 512 + page % 512, word),
        ensures
            self.well_formed(),
            self.node_set() == before.node_set(),
            word & 1 == 1 ==> self.entry(page) == Some(word),
            forall|q: int| 0 <= q && q != page ==> #[trigger] self.entry(q) == before.entry(q),
    {
        let last = self.format.levels() - 1;
        assert forall|u: int, n: Node| #[trigger] self.is_node(u, n) == before.is_node(u, n) by {}
        assert forall|n: Node| #[trigger] self.has(n) == before.has(n) by {
            if before.has(n) {
                let u = choose|u: int| before.is_node(u, n);
                assert(self.is_node(u, n));
            }
            if self.has(n) {
                let u = choose|u: int| self.is_node(u, n);
                assert(before.is_node(u, n));
            }
        }
        assert forall|u: int, j: int|
            0 <= u <= TABLE_POOL_SIZE && 0 <= j < 512 && !(u == t && j == page % 512) implies
            #[trigger] self.word(u, j) == before.word(u, j) by {
            assert(u * 512 + j != t * 512 + page % 512);
        }
        assert forall|u: int, j: int|
            0 <= u <= self.used && 0 <= j < 512 && self.nodes@[u].depth < last implies #[trigger]
            self.linked(u, j) by {
            assert(before.linked(u, j));
            assert(u != t);
            if before.word(u, j) & 1 != 0 {
                let d = Self::child(before.nodes@[u], j);
                let v = choose|v: int|
                    #[trigger]
                    before.is_node(v, d) && before.word(u, j) == before.format.table_word(
                        before.address(v) as u64,
                    );
                assert(self.is_node(v, d));
            }
        }
        assert forall|u: int| 1 <= u <= self.used implies (#[trigger] self.nodes@[u]).depth > 0
            && self.has(
            Node { depth: self.nodes@[u].depth - 1, prefix: self.nodes@[u].prefix / 512 },
        ) by {
            assert(before.has(
                Node { depth: before.nodes@[u].depth - 1, prefix: before.nodes@[u].prefix / 512 },
            ));
        }
        assert(self.well_formed());
        assert forall|q: int| 0 <= q implies #[trigger] self.entry(q) == (if q == page && word & 1
            == 1 {
            Some(word)
        } else if q == page {
            self.entry(q)
        } else {
            before.entry(q)
        }) by {
            let node = self.last_node(q);
            if before.has(node) {
                let u = choose|u: int| before.is_node(u, node);
                let v = choose|v: int| self.is_node(v, node);
                assert(before.is_node(v, node));
                assert(u == v);
                if q == page {
                    assert(before.is_node(t, node));
                    assert(u == t);
                } else {
                    assert(!(u == t && q % 512 == page % 512)) by {
                        if u == t {
                            assert(q / 512 == page / 512);
                        }
                    }
                    assert(self.word(u, q % 512) == before.word(u, q % 512));
                }
            }
        }
    }

    /// The tables below the root on the way to any of the pages from `first` to
    /// before `end`.
    pub open spec fn ways(format: PageFormat, first: int, end: int) -> Set<Node>
        decreases end - first,
    {
        if end <= first {
            Set::empty()
        } else {
            Self::ways(format, first, end - 1).union(Self::way(format, end - 1))
        }
    }

    proof fn lemma_ways_finite(format: PageFormat, first: int, end: int)
        ensures
            Self::ways(format, first, end).finite(),
        decreases end - first,
    {
        if first < end {
            Self::lemma_ways_finite(format, first, end - 1);
            Self::lemma_way_is_finite(format, end - 1, (format.levels() - 1) as nat);
        }
    }

    proof fn lemma_ways_grow(format: PageFormat, first: int, mid: int, end: int)
        requires
            mid <= end,
        ensures
            Self::ways(format, first, mid).subset_of(Self::ways(format, first, end)),
        decreases end - mid,
    {
        if mid < end {
            Self::lemma_ways_grow(format, first, mid, end - 1);
        }
    }

    /// `after` maps the pages from `first` to before `end` to themselves with
    /// `flags`, and every other page as `self` does.
    pub open spec fn identity_mapped(self, after: Self, first: int, end: int, flags: u64) -> bool {
        forall|q: int|
            0 <= q < self.format.page_limit() ==> #[trigger] after.lookup(q) == (if first <= q
                < end {
                Some(self.format.leaf_word((q * 4096) as u64, flags))
            } else {
                self.lookup(q)
            })
    }

    /// Every page from `first` to before `end` is unmapped or already maps to
    /// itself with `flags`.
    pub open spec fn identity_compatible(self, first: int, end: int, flags: u64) -> bool {
        forall|q: int|
            first <= q < end ==> self.compatible(
                q,
                #[trigger] self.format.leaf_word((q * 4096) as u64, flags),
            )
    }

    /// The region is not empty, and every page of it has an equal virtual
    /// address.
    pub open spec fn in_reach(self, base_addr: u64, length: u64) -> bool {
        length > 0 && base_addr + length <= self.format.page_limit() * 4096
    }

    /// The pages from `first` to before `end` can be mapped to themselves: none
    /// conflicts with an existing mapping, and the pool has enough tables.
    pub open spec fn mappable(self, first: int, end: int, flags: u64) -> bool {
        &&& self.identity_compatible(first, end, flags)
        &&& self.node_set().union(Self::ways(self.format, first, end)).len() <= 17
    }

    /// The whole region can be mapped.
    pub open spec fn can_map_identity(self, base_addr: u64, length: u64, flags: u64) -> bool {
        self.in_reach(base_addr, length) && self.mappable(
            base_addr as int / 4096,
            (base_addr + length + 4095) / 4096,
            flags,
        )
    }

    /// `stop` is the first page from `first` on that cannot be mapped, and
    /// `after` maps the pages before it. If the pool is why, it is used up.
    pub open spec fn stopped_at(self, after: Self, first: int, stop: int, flags: u64) -> bool {
        let needed = self.node_set().union(Self::ways(self.format, first, stop + 1));
        &&& self.mappable(first, stop, flags)
        &&& !self.mappable(first, stop + 1, flags)
        &&& self.identity_mapped(after, first, stop, flags)
        &&& self.node_set().union(Self::ways(self.format, first, stop)).subset_of(after.node_set())
        &&& after.node_set().subset_of(needed)
        &&& needed.len() > 17 ==> after.node_set().len() == 17
    }

    /// What is left of mapping a region that cannot be mapped: nothing if it is
    /// out of reach, else its pages before the first that cannot be mapped.
    pub open spec fn identity_failed(
        self,
        after: Self,
        base_addr: u64,
        length: u64,
        flags: u64,
    ) -> bool {
        let first = base_addr as int / 4096;
        let end = (base_addr + length + 4095) / 4096;
        if self.in_reach(base_addr, length) {
            exists|stop: int|
                first <= stop < end && #[trigger] self.stopped_at(after, first, stop, flags)
        } else {
            after == self
        }
    }

    /// What comes of mapping `region` to itself with `flags`: `result` is the
    /// address of its first page if all of it could be mapped, else the region
    /// is invalid.
    pub open spec fn identity_setup(
        self,
        after: Self,
        region: MemoryRegionRaw,
        flags: u64,
        result: Result<VirtAddr, HalError>,
    ) -> bool {
        let first = region.base_addr as int / 4096;
        let end = (region.base_addr + region.length_bytes + 4095) / 4096;
        &&& result is Ok <==> self.can_map_identity(region.base_addr, region.length_bytes, flags)
        &&& match result {
            Ok(start) => {
                &&& start.0 == (first * 4096) as usize
                &&& self.identity_mapped(after, first, end, flags)
                &&& after.node_set() == self.node_set().union(Self::ways(self.format, first, end))
            },
            Err(e) => {
                &&& e == HalError::InvalidMemoryRegion
                &&& self.identity_failed(after, region.base_addr, region.length_bytes, flags)
            },
        }
    }

    /// Maps every page that the region touches to the frame of the same
    /// address, in order; stops at the first page that cannot be mapped.
    pub fn map_identity(&mut self, base_addr: u64, length: u64, flags: u64) -> (r: Result<
        u64,
        HalError,
    >)
        requires
            old(self).well_formed(),
        ensures
            final(self).well_formed(),
            final(self).format == old(self).format,
            final(self).base == old(self).base,
            r is Ok <==> old(self).can_map_identity(base_addr, length, flags),
            ({
                let first = base_addr as int / 4096;
                let end = (base_addr + length + 4095) / 4096;
                match r {
                    Ok(start) => {
                        &&& start == first * 4096
                        &&& old(self).identity_mapped(*final(self), first, end, flags)
                        &&& final(self).node_set() == old(self).node_set().union(
                            Self::ways(old(self).format, first, end),
                        )
                    },
                    Err(e) => {
                        &&& e == HalError::InvalidMemoryRegion
                        &&& old(self).identity_failed(*final(self), base_addr, length, flags)
                    },
                }
            }),
    {
        let ghost before = *self;
        let ghost format = self.format;
        let ghost first = base_addr as int / 4096;
        let ghost end = (base_addr + length + 4095) / 4096;
        let limit: u64 = self.format.mappable_pages() * 4096;
        if length == 0 || length > limit || base_addr > limit - length {
            return Err(HalError::InvalidMemoryRegion);
        }
        let stop_page: u64 = (base_addr + length + 4095) / 4096;
        let mut page: u64 = base_addr / 4096;
        let ghost needed = before.node_set().union(Self::ways(format, first, end));
        proof {
            assert(before.identity_mapped(*self, first, first, flags));
            assert(before.node_set() =~= before.node_set().union(Self::ways(format, first, first)));
            before.lemma_node_count();
            Self::lemma_ways_finite(format, first, end);
        }
        while page < stop_page
            invariant
                before == *old(self),
                before.well_formed(),
                before.node_set().finite(),
                self.well_formed(),
                self.format == format,
                before.format == format,
                self.base == before.base,
                first == base_addr as int / 4096,
                end == (base_addr + length + 4095) / 4096,
                length > 0,
                base_addr + length <= format.page_limit() * 4096,
                stop_page == end,
                first <= page <= end,
                0 <= first,
                end <= format.page_limit(),
                needed == before.node_set().union(Self::ways(format, first, end)),
                needed.finite(),
                before.identity_mapped(*self, first, page as int, flags),
                before.mappable(first, page as int, flags),
                self.node_set() == before.node_set().union(Self::ways(format, first, page as int)),
            decreases stop_page - page,
        {
            let addr: u64 = page * 4096;
            let ghost mid = *self;
            let ghost p = page as int;
            let r = self.map_page(addr, addr, flags);
            proof {
                assert(addr as int / 4096 == p);
                assert(mid.lookup(p) == before.lookup(p));
                assert(mid.node_set().union(Self::way(format, p)) =~= before.node_set().union(
                    Self::ways(format, first, p + 1),
                ));
                Self::lemma_ways_grow(format, first, p + 1, end);
            }
            if r.is_err() {
                proof {
                    if !before.compatible(p, format.leaf_word(addr, flags)) {
                        assert(!before.identity_compatible(first, end, flags));
                    } else {
                        vstd::set_lib::lemma_len_subset(
                            before.node_set().union(Self::ways(format, first, p + 1)),
                            needed,
                        );
                    }
                    assert(before.identity_mapped(*self, first, p, flags)) by {
                        assert forall|q: int| 0 <= q < format.page_limit() implies #[trigger]
                            self.lookup(q) == (if first <= q < p {
                            Some(format.leaf_word((q * 4096) as u64, flags))
                        } else {
                            before.lookup(q)
                        }) by {
                            assert(self.lookup(q) == mid.lookup(q));
                        }
                    }
                    assert(before.stopped_at(*self, first, p, flags));
                }
                return Err(HalError::InvalidMemoryRegion);
            }
            proof {
                assert(before.mappable(first, p + 1, flags));
                assert forall|q: int| 0 <= q < format.page_limit() implies #[trigger] self.lookup(q)
                    == (if first <= q < p + 1 {
                    Some(format.leaf_word((q * 4096) as u64, flags))
                } else {
                    before.lookup(q)
                }) by {
                    if q != p {
                        assert(self.lookup(q) == mid.lookup(q));
                    }
                }
            }
            page = page + 1;
        }
        proof {
            self.lemma_node_count();
        }
        Ok(base_addr / 4096 * 4096)
    }
}

/// The flags that a format keeps apart from the address.
pub open spec fn flags_fit(format: PageFormat, flags: u64) -> bool {
    match format {
        PageFormat::X86_64 => flags & 0x000F_FFFF_FFFF_F000 == 0,
        PageFormat::Arm64 => flags & 0x0000_FFFF_FFFF_F000 == 0,
        PageFormat::Sv39 => flags & 0x003F_FFFF_FFFF_FC00 == 0,
    }
}

/// A mapped page points at its frame and carries its flags, for every frame
/// below 2^48.
pub proof fn leaf_word_points_at_its_frame(format: PageFormat, phys: u64, flags: u64)
    requires
        phys % PAGE_SIZE == 0,
        phys < TABLE_ADDRESS_LIMIT,
        flags_fit(format, flags),
    ensures
        format.target(format.leaf_word(phys, flags)) == phys,
        format.leaf_word(phys, flags) & flags == flags,
{
    match format {
        PageFormat::X86_64 => {
            assert(((phys & 0x000F_FFFF_FFFF_F000) | flags | 0x1) & 0x000F_FFFF_FFFF_F000 == phys
                && ((phys & 0x000F_FFFF_FFFF_F000) | flags | 0x1) & flags == flags) by (bit_vector)
                requires
                    phys % 4096 == 0,
                    phys < 0x0001_0000_0000_0000,
                    flags & 0x000F_FFFF_FFFF_F000 == 0,
            ;
        },
        PageFormat::Arm64 => {
            assert(((phys & 0x0000_FFFF_FFFF_F000) | flags | 0x403) & 0x0000_FFFF_FFFF_F000 == phys
                && ((phys & 0x0000_FFFF_FFFF_F000) | flags | 0x403) & flags == flags)
                by (bit_vector)
                requires
                    phys % 4096 == 0,
                    phys < 0x0001_0000_0000_0000,
                    flags & 0x0000_FFFF_FFFF_F000 == 0,
            ;
        },
        PageFormat::Sv39 => {
            assert((((((phys >> 12) << 10) | flags | 0xC1) >> 10) & 0x0FFF_FFFF_FFFF) << 12 == phys
                && (((phys >> 12) << 10) | flags | 0xC1) & flags == flags) by (bit_vector)
                requires
                    phys % 4096 == 0,
                    phys < 0x0001_0000_0000_0000,
                    flags & 0x003F_FFFF_FFFF_FC00 == 0,
            ;
        },
    }
}

/// After a region is identity mapped, every page of it translates to its own
/// address and carries the flags it was mapped with.
pub proof fn identity_mapping_is_the_identity(
    before: PageTables,
    after: PageTables,
    first: int,
    end: int,
    flags: u64,
    page: int,
)
    requires
        before.identity_mapped(after, first, end, flags),
        flags_fit(before.format, flags),
        0 <= first <= page < end <= before.format.page_limit(),
    ensures
        after.lookup(page) matches Some(word) && before.format.target(word) == page * 4096 && word
            & flags == flags,
{
    leaf_word_points_at_its_frame(before.format, (page * 4096) as u64, flags);
}

/// A region that was identity mapped can be mapped again with the same flags,
/// and that changes no translation.
pub proof fn mapping_again_changes_nothing(
    before: PageTables,
    after: PageTables,
    later: PageTables,
    base_addr: u64,
    length: u64,
    flags: u64,
)
    requires
        before.can_map_identity(base_addr, length, flags),
        after.format == before.format,
        before.identity_mapped(
            after,
            base_addr as int / 4096,
            (base_addr + length + 4095) / 4096,
            flags,
        ),
        after.node_set() == before.node_set().union(
            PageTables::ways(
                before.format,
                base_addr as int / 4096,
                (base_addr + length + 4095) / 4096,
            ),
        ),
        after.identity_mapped(
            later,
            base_addr as int / 4096,
            (base_addr + length + 4095) / 4096,
            flags,
        ),
    ensures
        after.can_map_identity(base_addr, length, flags),
        forall|page: int|
            0 <= page < after.format.page_limit() ==> #[trigger] later.lookup(page)
                == after.lookup(page),
{
    let first = base_addr as int / 4096;
    let end = (base_addr + length + 4095) / 4096;
    let ways = PageTables::ways(before.format, first, end);
    assert(end <= before.format.page_limit());
    assert(after.node_set().union(ways) =~= before.node_set().union(ways));
    assert forall|q: int| first <= q < end implies after.compatible(
        q,
        #[trigger] after.format.leaf_word((q * 4096) as u64, flags),
    ) by {
        assert(after.lookup(q) == Some(before.format.leaf_word((q * 4096) as u64, flags)));
    }
    assert forall|page: int| 0 <= page < after.format.page_limit() implies #[trigger] later.lookup(
        page,
    ) == after.lookup(page) by {
        assert(after.lookup(page) == after.lookup(page));
    }
}

} // verus!
