//! Filesystem choices and their tunables.

use vstd::prelude::*;
use vstd::utf8::encode_utf8;

verus! {

/// RAID levels a Btrfs target can be created with.
#[derive(Clone, Copy, Debug, PartialEq, Eq, Structural)]
pub enum BtrfsRaidLevel {
    Raid0,
    Raid1,
    Raid10,
}

/// RAID levels a ZFS pool can be created with.
#[derive(Clone, Copy, Debug, PartialEq, Eq, Structural)]
pub enum ZfsRaidLevel {
    Raid0,
    Raid1,
    Raid10,
    RaidZ,
    RaidZ2,
    RaidZ3,
}

/// The filesystem of the target, together with the RAID level where the
/// filesystem has one.
#[derive(Clone, Copy, Debug, PartialEq, Eq, Structural)]
pub enum FsType {
    Ext4,
    Xfs,
    Zfs(ZfsRaidLevel),
    Btrfs(BtrfsRaidLevel),
}

#[derive(Clone, Copy, Debug, PartialEq, Eq, Structural)]
pub enum BtrfsCompressOption {
    On,
    Off,
    Zlib,
    Lzo,
    Zstd,
}

#[derive(Clone, Copy, Debug, PartialEq, Eq, Structural)]
pub enum ZfsCompressOption {
    On,
    Off,
    Lzjb,
    Lz4,
    Zle,
    Gzip,
    Zstd,
}

#[derive(Clone, Copy, Debug, PartialEq, Eq, Structural)]
pub enum ZfsChecksumOption {
    On,
    Fletcher4,
    Sha256,
}

/// A size in GiB. The installer works with binary64 numbers here; the value
/// is carried by its bit pattern, which can be stored, copied and compared
/// exactly.
#[derive(Clone, Copy, Debug, PartialEq, Eq, Structural)]
pub struct SizeGb {
    pub bits: u64,
}

impl SizeGb {
    pub fn from_bits(bits: u64) -> (size: SizeGb)
        ensures
            size.bits == bits,
    {
        SizeGb { bits }
    }

    pub fn to_bits(self) -> (bits: u64)
        ensures
            bits == self.bits,
    {
        self.bits
    }
}

/// What the operator chose for a ZFS target.
#[derive(Clone, Debug, PartialEq, Eq)]
pub struct ZfsBootdiskOptions {
    pub ashift: usize,
    pub compress: ZfsCompressOption,
    pub checksum: ZfsChecksumOption,
    pub copies: usize,
    pub arc_max: usize,
    pub disk_size: SizeGb,
    pub selected_disks: Vec<usize>,
}

/// What the operator chose for a Btrfs target.
#[derive(Clone, Debug, PartialEq, Eq)]
pub struct BtrfsBootdiskOptions {
    pub disk_size: SizeGb,
    pub selected_disks: Vec<usize>,
    pub compress: BtrfsCompressOption,
}

/// A disk of the machine.
#[derive(Clone, Debug)]
pub struct Disk {
    /// The number under which the installer knows the disk, in decimal.
    pub index: String,
    pub path: String,
    pub model: Option<String>,
    pub size: SizeGb,
    pub block_size: Option<usize>,
}

/// Whether a text comes before another or equals it, in the order of
/// texts: byte by byte, the first difference deciding, and a text before
/// every text that it begins.
pub open spec fn text_le(a: Seq<u8>, b: Seq<u8>) -> bool
    decreases a.len(),
{
    if a.len() == 0 {
        true
    } else if b.len() == 0 {
        false
    } else if a[0] != b[0] {
        a[0] < b[0]
    } else {
        text_le(a.drop_first(), b.drop_first())
    }
}

/// Of two texts one comes before the other, or they are equal.
pub proof fn text_order_is_total(a: Seq<u8>, b: Seq<u8>)
    ensures
        text_le(a, b) || text_le(b, a),
    decreases a.len(),
{
    if a.len() > 0 && b.len() > 0 && a[0] == b[0] {
        text_order_is_total(a.drop_first(), b.drop_first());
    }
}

/// What comes before a text comes before all that the text comes before.
pub proof fn text_order_is_transitive(a: Seq<u8>, b: Seq<u8>, c: Seq<u8>)
    requires
        text_le(a, b),
        text_le(b, c),
    ensures
        text_le(a, c),
    decreases a.len(),
{
    if a.len() > 0 && b.len() > 0 && c.len() > 0 && a[0] == b[0] && b[0] == c[0] {
        text_order_is_transitive(a.drop_first(), b.drop_first(), c.drop_first());
    }
}

/// Compares two texts in the order of texts.
fn bytes_le(a: &[u8], b: &[u8]) -> (le: bool)
    ensures
        le == text_le(a@, b@),
{
    let mut i: usize = 0;
    proof {
        assert(a@.skip(0) == a@);
        assert(b@.skip(0) == b@);
    }
    while i < a.len() && i < b.len()
        invariant
            i <= a.len(),
            i <= b.len(),
            text_le(a@, b@) == text_le(a@.skip(i as int), b@.skip(i as int)),
        decreases a.len() - i,
    {
        if a[i] != b[i] {
            return a[i] < b[i];
        }
        proof {
            assert(a@.skip(i as int).drop_first() == a@.skip(i + 1));
            assert(b@.skip(i as int).drop_first() == b@.skip(i + 1));
        }
        i += 1;
    }
    a.len() <= b.len()
}

impl Disk {
    /// Disks are ordered by their index, read as text.
    pub open spec fn le(self, other: Disk) -> bool {
        text_le(encode_utf8(self.index@), encode_utf8(other.index@))
    }

    /// Whether this disk comes before the other in the order of disks, or
    /// has the same index.
    pub fn comes_before(&self, other: &Disk) -> (before: bool)
        ensures
            before == self.le(*other),
    {
        bytes_le(self.index.as_str().as_bytes(), other.index.as_str().as_bytes())
    }
}

/// Whether each disk of a list comes before the disks that follow it.
pub open spec fn sorted_by_index(disks: Seq<Disk>) -> bool {
    forall|i: int, j: int| 0 <= i < j < disks.len() ==> disks[i].le(disks[j])
}

/// The disks of a list that have the given index, in the order of the list.
pub open spec fn with_index(disks: Seq<Disk>, index: Seq<char>) -> Seq<Disk> {
    disks.filter(|disk: Disk| disk.index@ == index)
}

proof fn with_index_of_push(disks: Seq<Disk>, disk: Disk, index: Seq<char>)
    ensures
        with_index(disks.push(disk), index) == (if disk.index@ == index {
            with_index(disks, index).push(disk)
        } else {
            with_index(disks, index)
        }),
{
    reveal(Seq::filter);
    assert(disks.push(disk).drop_last() == disks);
}

proof fn with_index_of_none(disks: Seq<Disk>, index: Seq<char>)
    requires
        forall|i: int| 0 <= i < disks.len() ==> (#[trigger] disks[i]).index@ != index,
    ensures
        with_index(disks, index) == Seq::<Disk>::empty(),
    decreases disks.len(),
{
    reveal(Seq::filter);
    if disks.len() > 0 {
        with_index_of_none(disks.drop_last(), index);
    }
}

proof fn with_index_of_add(head: Seq<Disk>, tail: Seq<Disk>, index: Seq<char>)
    ensures
        with_index(head + tail, index) == with_index(head, index) + with_index(tail, index),
    decreases tail.len(),
{
    reveal(Seq::filter);
    if tail.len() == 0 {
        assert(head + tail == head);
    } else {
        assert((head + tail).drop_last() == head + tail.drop_last());
        with_index_of_add(head, tail.drop_last(), index);
    }
}

/// A disk that is put into a list before every disk of its own index comes
/// first among the disks of that index; the disks of any other index stay
/// as they are.
proof fn with_index_of_insert(disks: Seq<Disk>, at: int, disk: Disk, index: Seq<char>)
    requires
        0 <= at <= disks.len(),
        forall|i: int| 0 <= i < at ==> (#[trigger] disks[i]).index@ != disk.index@,
    ensures
        with_index(disks.insert(at, disk), index) == (if disk.index@ == index {
            seq![disk] + with_index(disks, index)
        } else {
            with_index(disks, index)
        }),
{
    let head = disks.take(at);
    let tail = disks.skip(at);
    assert(disks.insert(at, disk) == head.push(disk) + tail);
    assert(disks == head + tail);
    with_index_of_add(head.push(disk), tail, index);
    with_index_of_add(head, tail, index);
    with_index_of_push(head, disk, index);
    if disk.index@ == index {
        with_index_of_none(head, index);
        assert(Seq::<Disk>::empty().push(disk) + with_index(tail, index) == seq![disk] + (
        Seq::<Disk>::empty() + with_index(tail, index)));
    }
}

/// Puts disks in order of their index. The result holds the same disks,
/// each as often as before, and is sorted; disks of the same index keep the
/// order they came in.
pub fn sort_disks(disks: Vec<Disk>) -> (sorted: Vec<Disk>)
    ensures
        sorted_by_index(sorted@),
        sorted@.to_multiset() == disks@.to_multiset(),
        forall|index: Seq<char>| #[trigger]
            with_index(sorted@, index) == with_index(disks@, index),
{
    let ghost all = disks@;
    let mut rest = disks;
    let mut sorted: Vec<Disk> = Vec::new();
    proof {
        broadcast use vstd::seq_lib::group_to_multiset_ensures;
        assert(sorted@.to_multiset().add(rest@.to_multiset()) =~= all.to_multiset());
        assert forall|index: Seq<char>| #[trigger]
            with_index(all, index) == with_index(rest@, index) + with_index(sorted@, index) by {
            with_index_of_none(sorted@, index);
        }
    }
    while rest.len() > 0
        invariant
            sorted_by_index(sorted@),
            sorted@.to_multiset().add(rest@.to_multiset()) == all.to_multiset(),
            forall|index: Seq<char>| #[trigger]
                with_index(all, index) == with_index(rest@, index) + with_index(sorted@, index),
        decreases rest.len(),
    {
        let ghost rest_before = rest@;
        let ghost sorted_before = sorted@;
        let disk = rest.pop().unwrap();
        let mut at: usize = 0;
        while at < sorted.len() && !disk.comes_before(&sorted[at])
            invariant
                at <= sorted.len(),
                sorted@ == sorted_before,
                forall|i: int| 0 <= i < at ==> !disk.le(#[trigger] sorted@[i]),
            decreases sorted.len() - at,
        {
            at += 1;
        }
        sorted.insert(at, disk);
        proof {
            assert forall|i: int, j: int| 0 <= i < j < sorted@.len() implies sorted@[i].le(
                sorted@[j],
            ) by {
                let a = sorted@[i];
                let b = sorted@[j];
                if j == at {
                    assert(a == sorted_before[i]);
                    text_order_is_total(encode_utf8(a.index@), encode_utf8(disk.index@));
                } else if i == at {
                    assert(b == sorted_before[j - 1]);
                    assert(disk.le(sorted_before[at as int]));
                    if j - 1 > at {
                        assert(sorted_before[at as int].le(sorted_before[j - 1]));
                        text_order_is_transitive(
                            encode_utf8(disk.index@),
                            encode_utf8(sorted_before[at as int].index@),
                            encode_utf8(b.index@),
                        );
                    }
                } else {
                    let i0 = if i < at { i } else { i - 1 };
                    let j0 = if j < at { j } else { j - 1 };
                    assert(a == sorted_before[i0]);
                    assert(b == sorted_before[j0]);
                }
            }
            broadcast use vstd::seq_lib::group_to_multiset_ensures;
            assert(rest_before == rest@.push(disk));
            assert(sorted@.remove(at as int) == sorted_before);
            assert(sorted@[at as int] == disk);
            assert(sorted@.to_multiset() =~= sorted_before.to_multiset().insert(disk));
            assert(sorted@.to_multiset().add(rest@.to_multiset()) =~= sorted_before.to_multiset().add(
                rest_before.to_multiset(),
            ));
            assert forall|i: int| 0 <= i < at implies (#[trigger] sorted_before[i]).index@
                != disk.index@ by {
                if sorted_before[i].index@ == disk.index@ {
                    text_order_is_total(encode_utf8(disk.index@), encode_utf8(disk.index@));
                    assert(disk.le(sorted_before[i]));
                }
            }
            assert forall|index: Seq<char>| #[trigger]
                with_index(all, index) == with_index(rest@, index) + with_index(
                    sorted@,
                    index,
                ) by {
                with_index_of_push(rest@, disk, index);
                with_index_of_insert(sorted_before, at as int, disk, index);
                assert(with_index(all, index) == with_index(rest_before, index) + with_index(
                    sorted_before,
                    index,
                ));
                if disk.index@ == index {
                    assert(with_index(rest@, index).push(disk) + with_index(sorted_before, index)
                        == with_index(rest@, index) + (seq![disk] + with_index(
                        sorted_before,
                        index,
                    )));
                }
            }
        }
    }
    proof {
        broadcast use vstd::seq_lib::group_to_multiset_ensures;
        assert(rest@ == Seq::<Disk>::empty());
        assert(sorted@.to_multiset().add(rest@.to_multiset()) =~= sorted@.to_multiset());
        assert forall|index: Seq<char>| #[trigger]
            with_index(sorted@, index) == with_index(all, index) by {
            with_index_of_none(rest@, index);
            assert(Seq::<Disk>::empty() + with_index(sorted@, index) == with_index(sorted@, index));
        }
    }
    sorted
}

/// The character for a digit.
pub open spec fn digit(d: nat) -> char {
    if d == 0 {
        '0'
    } else if d == 1 {
        '1'
    } else if d == 2 {
        '2'
    } else if d == 3 {
        '3'
    } else if d == 4 {
        '4'
    } else if d == 5 {
        '5'
    } else if d == 6 {
        '6'
    } else if d == 7 {
        '7'
    } else if d == 8 {
        '8'
    } else {
        '9'
    }
}

/// A number written in decimal, without leading zeros.
pub open spec fn decimal(n: nat) -> Seq<char>
    decreases n,
{
    if n < 10 {
        seq![digit(n)]
    } else {
        decimal(n / 10).push(digit(n % 10))
    }
}

/// The text of a single digit.
fn digit_text(d: usize) -> (text: &'static str)
    requires
        d < 10,
    ensures
        text@ == seq![digit(d as nat)],
{
    proof {
        reveal_strlit("0");
        reveal_strlit("1");
        reveal_strlit("2");
        reveal_strlit("3");
        reveal_strlit("4");
        reveal_strlit("5");
        reveal_strlit("6");
        reveal_strlit("7");
        reveal_strlit("8");
        reveal_strlit("9");
    }
    let text = if d == 0 {
        "0"
    } else if d == 1 {
        "1"
    } else if d == 2 {
        "2"
    } else if d == 3 {
        "3"
    } else if d == 4 {
        "4"
    } else if d == 5 {
        "5"
    } else if d == 6 {
        "6"
    } else if d == 7 {
        "7"
    } else if d == 8 {
        "8"
    } else {
        "9"
    };
    assert(text@ =~= seq![digit(d as nat)]);
    text
}

/// Writes a number in decimal.
pub fn decimal_text(n: usize) -> (text: String)
    ensures
        text@ == decimal(n as nat),
    decreases n,
{
    if n < 10 {
        digit_text(n).to_owned()
    } else {
        let text = decimal_text(n / 10).concat(digit_text(n % 10));
        assert(text@ =~= decimal((n / 10) as nat).push(digit((n % 10) as nat)));
        text
    }
}

impl Disk {
    /// Makes a disk of what the environment reports of it. The index is
    /// kept in decimal, and a model that is the empty text counts as
    /// unknown.
    pub fn from_report(
        index: usize,
        path: String,
        size: SizeGb,
        model: String,
        block_size: Option<usize>,
    ) -> (disk: Disk)
        ensures
            disk.index@ == decimal(index as nat),
            disk.path == path,
            disk.size == size,
            disk.block_size == block_size,
            disk.model == (if model@.len() == 0 {
                None
            } else {
                Some(model)
            }),
    {
        let known = !model.as_str().is_empty();
        Disk {
            index: decimal_text(index),
            path,
            model: if known {
                Some(model)
            } else {
                None
            },
            size,
            block_size,
        }
    }
}

} // verus!
