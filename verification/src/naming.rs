//! Names of archives.
//!
//! A retired file keeps the path of the live file and gains a suffix: the
//! calendar stamp of the period that it covers, or a sequence number where
//! the rotation goes by size. A name that is already taken gains a counter.
//! A compressed archive gains a fixed extension on top.

use vstd::prelude::*;
use vstd::string::StringExecFns;

use crate::clock::{utc_format, utc_text, MAX_TIMESTAMP};
use crate::text::{push_char, texts};
use crate::{CUTMODE, MODE};

verus! {

/// The `strftime` pattern of the stamp of each granularity: year and month,
/// then the day, then the hour.
pub open spec fn stamp_pattern_of(mode: MODE) -> Seq<char> {
    match mode {
        MODE::HOUR => "%Y%m%d%H"@,
        MODE::DAY => "%Y%m%d"@,
        MODE::MONTH => "%Y%m"@,
    }
}

/// The stamp of the period of granularity `mode` that starts at `startsec`.
pub open spec fn stamp_of(startsec: int, mode: MODE) -> Seq<char> {
    utc_text(startsec, stamp_pattern_of(mode))
}

/// The `strftime` pattern of the stamp of a granularity.
pub fn stamp_pattern(mode: MODE) -> (pattern: &'static str)
    ensures
        pattern@ == stamp_pattern_of(mode),
{
    match mode {
        MODE::HOUR => "%Y%m%d%H",
        MODE::DAY => "%Y%m%d",
        MODE::MONTH => "%Y%m",
    }
}

/// The calendar stamp that an archive carries: `YYYYMMDDHH` for an hourly
/// rotation, `YYYYMMDD` for a daily one, `YYYYMM` for a monthly one, of the
/// instant at which the archived period began.
pub fn getbackup_with_time(startsec: u64, timemode: MODE) -> (stamp: String)
    requires
        startsec <= MAX_TIMESTAMP,
    ensures
        stamp@ == stamp_of(startsec as int, timemode),
{
    let text = utc_format(startsec as i64, stamp_pattern(timemode));
    text.unwrap()
}

/// The decimal digit of a number below ten.
pub open spec fn digit(d: int) -> char {
    (48 + d) as char
}

/// A number in decimal, without leading zeros.
pub open spec fn decimal(n: nat) -> Seq<char>
    decreases n,
{
    if n < 10 {
        seq![digit(n as int)]
    } else {
        decimal(n / 10).push(digit((n % 10) as int))
    }
}

/// Prints a number in decimal.
pub fn decimal_text(n: u64) -> (text: String)
    ensures
        text@ == decimal(n as nat),
    decreases n,
{
    if n < 10 {
        let mut text = String::new();
        push_char(&mut text, (48u8 + n as u8) as char);
        text
    } else {
        let mut text = decimal_text(n / 10);
        push_char(&mut text, (48u8 + (n % 10) as u8) as char);
        text
    }
}

/// `path`, a dot, and `suffix`.
pub open spec fn dotted(path: Seq<char>, suffix: Seq<char>) -> Seq<char> {
    path + seq!['.'] + suffix
}

/// The name of the archive of `path`: the stamp of the instant at which the
/// archived period began under a rotation by time, the sequence number under
/// a rotation by size.
pub open spec fn archive_name(
    path: Seq<char>,
    cut: CUTMODE,
    timemode: MODE,
    instant_or_seq: nat,
) -> Seq<char> {
    match cut {
        CUTMODE::TIME => dotted(path, stamp_of(instant_or_seq as int, timemode)),
        CUTMODE::SIZE => dotted(path, decimal(instant_or_seq)),
    }
}

/// `path`, a dot, and `suffix`.
pub fn with_suffix(path: &str, suffix: &str) -> (name: String)
    ensures
        name@ == dotted(path@, suffix@),
{
    let mut name = path.to_string();
    push_char(&mut name, '.');
    name.append(suffix);
    name
}

/// The name under which the file at `path` is archived. Under a rotation by
/// time `instant_or_seq` is the second at which the archived period began;
/// under a rotation by size it is the number of the archive.
pub fn name_for(path: &str, cut: CUTMODE, timemode: MODE, instant_or_seq: u64) -> (name: String)
    requires
        cut is TIME ==> instant_or_seq <= MAX_TIMESTAMP,
    ensures
        name@ == archive_name(path@, cut, timemode, instant_or_seq as nat),
{
    match cut {
        CUTMODE::TIME => {
            let stamp = getbackup_with_time(instant_or_seq, timemode);
            with_suffix(path, stamp.as_str())
        },
        CUTMODE::SIZE => {
            let number = decimal_text(instant_or_seq);
            with_suffix(path, number.as_str())
        },
    }
}

/// The name of the compressed sibling of the archive at `path`: the path
/// with `.gz` behind it.
pub open spec fn compressed_name_of(path: Seq<char>) -> Seq<char> {
    path + ".gz"@
}

/// The name of the compressed sibling of the archive at `path`.
pub fn compressed_name(path: &str) -> (name: String)
    ensures
        name@ == compressed_name_of(path@),
{
    let mut name = path.to_string();
    name.append(".gz");
    name
}

/// The `k`-th name that is tried for an archive: the plain name first, then
/// the name with the counter `k` behind a dot.
pub open spec fn candidate(base: Seq<char>, k: nat) -> Seq<char> {
    if k == 0 {
        base
    } else {
        dotted(base, decimal(k))
    }
}

/// `name` is the first candidate for `base` that `taken` does not hold.
pub open spec fn is_first_free(base: Seq<char>, taken: Seq<Seq<char>>, name: Seq<char>) -> bool {
    exists|k: nat|
        {
            &&& name == #[trigger] candidate(base, k)
            &&& !taken.contains(name)
            &&& forall|j: nat| j < k ==> taken.contains(#[trigger] candidate(base, j))
        }
}

/// A number in decimal has at least one digit.
pub proof fn lemma_decimal_len(n: nat)
    ensures
        decimal(n).len() >= 1,
        n >= 10 ==> decimal(n).len() >= 2,
    decreases n,
{
    if n >= 10 {
        lemma_decimal_len(n / 10);
    }
}

/// Two numbers with the same decimal digits are the same number.
pub proof fn lemma_decimal_injective(a: nat, b: nat)
    requires
        decimal(a) == decimal(b),
    ensures
        a == b,
    decreases a,
{
    lemma_decimal_len(a);
    lemma_decimal_len(b);
    if a < 10 && b < 10 {
        assert(decimal(a)[0] == digit(a as int));
        assert(decimal(b)[0] == digit(b as int));
    } else if a >= 10 && b >= 10 {
        let da = decimal(a / 10);
        let db = decimal(b / 10);
        assert(decimal(a).last() == digit((a % 10) as int));
        assert(decimal(b).last() == digit((b % 10) as int));
        assert(da == decimal(a).drop_last());
        assert(db == decimal(b).drop_last());
        lemma_decimal_injective(a / 10, b / 10);
    }
}

/// Two counters that give the same candidate are the same counter.
pub proof fn lemma_candidate_injective(base: Seq<char>, j: nat, k: nat)
    requires
        candidate(base, j) == candidate(base, k),
    ensures
        j == k,
{
    if j != 0 && k != 0 {
        let a = dotted(base, decimal(j));
        let b = dotted(base, decimal(k));
        assert(decimal(j) == a.subrange(base.len() as int + 1, a.len() as int));
        assert(decimal(k) == b.subrange(base.len() as int + 1, b.len() as int));
        lemma_decimal_injective(j, k);
    } else if j != 0 {
        lemma_decimal_len(j);
    } else if k != 0 {
        lemma_decimal_len(k);
    }
}

/// Whether `taken` holds `name`.
pub fn is_taken(taken: &Vec<String>, name: &String) -> (found: bool)
    ensures
        found == texts(taken@).contains(name@),
{
    let mut i: usize = 0;
    while i < taken.len()
        invariant
            i <= taken.len(),
            forall|j: int| 0 <= j < i ==> texts(taken@)[j] != name@,
        decreases taken.len() - i,
    {
        if taken[i] == *name {
            assert(texts(taken@)[i as int] == name@);
            return true;
        }
        i = i + 1;
    }
    false
}

/// The first name for an archive that is not in use: `base` itself where it
/// is free, else `base` with the least counter, from 1 on, that makes a free
/// name.
pub fn unused_name(base: &str, taken: &Vec<String>) -> (name: String)
    ensures
        is_first_free(base@, texts(taken@), name@),
{
    let ghost held = texts(taken@);
    let ghost mut seen: Set<Seq<char>> = Set::empty();
    let mut name = base.to_string();
    let mut k: u64 = 0;
    while is_taken(taken, &name)
        invariant
            held == texts(taken@),
            name@ == candidate(base@, k as nat),
            k <= taken.len(),
            seen.finite(),
            seen.len() == k,
            forall|x: Seq<char>| seen.contains(x) ==> held.contains(x),
            forall|x: Seq<char>|
                seen.contains(x) ==> exists|j: nat| j < k && x == #[trigger] candidate(base@, j),
            forall|j: nat| j < k ==> held.contains(#[trigger] candidate(base@, j)),
        decreases taken.len() - k,
    {
        proof {
            let next = candidate(base@, k as nat);
            if seen.contains(next) {
                let j = choose|j: nat| j < k && next == #[trigger] candidate(base@, j);
                lemma_candidate_injective(base@, j, k as nat);
            }
            seen = seen.insert(next);
            assert(seen.subset_of(held.to_set()));
            vstd::seq_lib::seq_to_set_is_finite(held);
            vstd::set_lib::lemma_len_subset(seen, held.to_set());
            held.lemma_cardinality_of_set();
        }
        k = k + 1;
        let number = decimal_text(k);
        name = with_suffix(base, number.as_str());
    }
    name
}

/// The name of an archive depends on nothing but the path, the kind of
/// rotation, the granularity and the instant or sequence number: two names
/// made from the same four are the same name.
pub proof fn lemma_name_determined(
    path: Seq<char>,
    cut: CUTMODE,
    timemode: MODE,
    instant_or_seq: nat,
    first: Seq<char>,
    second: Seq<char>,
)
    requires
        first == archive_name(path, cut, timemode, instant_or_seq),
        second == archive_name(path, cut, timemode, instant_or_seq),
    ensures
        first == second,
{
}

/// Under a rotation by size, archives of one path with different sequence
/// numbers bear different names.
pub proof fn lemma_sequence_names_differ(path: Seq<char>, timemode: MODE, a: nat, b: nat)
    requires
        archive_name(path, CUTMODE::SIZE, timemode, a) == archive_name(
            path,
            CUTMODE::SIZE,
            timemode,
            b,
        ),
    ensures
        a == b,
{
    let left = dotted(path, decimal(a));
    let right = dotted(path, decimal(b));
    assert(decimal(a) == left.subrange(path.len() as int + 1, left.len() as int));
    assert(decimal(b) == right.subrange(path.len() as int + 1, right.len() as int));
    lemma_decimal_injective(a, b);
}

/// A name that is not in use is kept as it is.
pub proof fn lemma_unused_base_is_first_free(base: Seq<char>, taken: Seq<Seq<char>>)
    requires
        !taken.contains(base),
    ensures
        is_first_free(base, taken, base),
{
    assert(base == candidate(base, 0));
}

/// Where the archive name is already in use, the name that is chosen in its
/// place is not in use and is the archive name with a dot and a counter,
/// from 1 on, behind it.
pub proof fn lemma_taken_name_gains_counter(
    base: Seq<char>,
    taken: Seq<Seq<char>>,
    name: Seq<char>,
)
    requires
        taken.contains(base),
        is_first_free(base, taken, name),
    ensures
        !taken.contains(name),
        exists|k: nat| k >= 1 && name == dotted(base, #[trigger] decimal(k)),
{
    let k = choose|k: nat|
        {
            &&& name == #[trigger] candidate(base, k)
            &&& !taken.contains(name)
            &&& forall|j: nat| j < k ==> taken.contains(#[trigger] candidate(base, j))
        };
    assert(k >= 1);
    assert(name == dotted(base, decimal(k)));
}

/// The free name is the same whenever the base and the names in use are the
/// same: of two names that are both the first free candidate, neither can
/// come before the other.
pub proof fn lemma_first_free_unique(
    base: Seq<char>,
    taken: Seq<Seq<char>>,
    a: Seq<char>,
    b: Seq<char>,
)
    requires
        is_first_free(base, taken, a),
        is_first_free(base, taken, b),
    ensures
        a == b,
{
    let ka = choose|k: nat|
        {
            &&& a == #[trigger] candidate(base, k)
            &&& !taken.contains(a)
            &&& forall|j: nat| j < k ==> taken.contains(#[trigger] candidate(base, j))
        };
    let kb = choose|k: nat|
        {
            &&& b == #[trigger] candidate(base, k)
            &&& !taken.contains(b)
            &&& forall|j: nat| j < k ==> taken.contains(#[trigger] candidate(base, j))
        };
    if ka < kb {
        assert(taken.contains(candidate(base, ka)));
    } else if kb < ka {
        assert(taken.contains(candidate(base, kb)));
    }
}

} // verus!
