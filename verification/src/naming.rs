//! Auto-generated entry names.
//!
//! An auto-named entry is `entry_N.enc`, where `N` is one more than
//! the highest index among the existing entry names. The rule is a
//! pure function over the list of existing file names, so the caller
//! scans the journal directory and hands the names in; nothing here
//! touches the filesystem. A name counts as an entry name when it is
//! the prefix `entry_`, then a nonempty run of ASCII digits whose
//! value fits in 32 bits, then the suffix `.enc`.

use vstd::prelude::*;

use vstd::string::StrSliceExecFns;

verus! {

/// The fixed lead of an auto-generated entry name.
pub open spec fn entry_prefix() -> Seq<char> {
    seq!['e', 'n', 't', 'r', 'y', '_']
}

/// The fixed tail of an auto-generated entry name.
pub open spec fn entry_suffix() -> Seq<char> {
    seq!['.', 'e', 'n', 'c']
}

/// Whether `c` is an ASCII decimal digit.
pub open spec fn is_digit(c: char) -> bool {
    '0' <= c && c <= '9'
}

/// Whether `s` is a nonempty run of ASCII decimal digits.
pub open spec fn all_digits(s: Seq<char>) -> bool {
    s.len() > 0 && forall|i: int| 0 <= i < s.len() ==> is_digit(#[trigger] s[i])
}

/// The number a run of decimal digits denotes, most significant first.
pub open spec fn digits_value(s: Seq<char>) -> nat
    decreases s.len(),
{
    if s.len() == 0 {
        0
    } else {
        (digits_value(s.drop_last()) * 10 + (s.last() as int - '0' as int)) as nat
    }
}

/// The digit character for a value below ten.
pub open spec fn digit_char(d: nat) -> char {
    (('0' as nat + d) as u8) as char
}

/// The decimal text of `n`, most significant digit first, no leading
/// zero except for zero itself.
pub open spec fn dec_digits(n: nat) -> Seq<char>
    decreases n,
{
    if n < 10 {
        seq![digit_char(n)]
    } else {
        dec_digits(n / 10) + seq![digit_char(n % 10)]
    }
}

/// The index an entry name carries: `Some(n)` exactly when the name is
/// the prefix, a digit run of value `n` fitting 32 bits, and the
/// suffix.
pub open spec fn entry_index_of(name: Seq<char>) -> Option<nat> {
    let len = name.len() as int;
    if len >= 11 && name.subrange(0, 6) == entry_prefix() && name.subrange(len - 4, len)
        == entry_suffix() && all_digits(name.subrange(6, len - 4)) && digits_value(
        name.subrange(6, len - 4),
    ) <= u32::MAX {
        Some(digits_value(name.subrange(6, len - 4)))
    } else {
        None
    }
}

/// The highest index any of the names carries, or zero when none of
/// them is an entry name.
pub open spec fn max_entry_index(names: Seq<Seq<char>>) -> nat
    decreases names.len(),
{
    if names.len() == 0 {
        0
    } else {
        let rest = max_entry_index(names.drop_last());
        match entry_index_of(names.last()) {
            Some(n) => if n > rest {
                n
            } else {
                rest
            },
            None => rest,
        }
    }
}

/// The full text of the auto-generated name with index `n`.
pub open spec fn entry_name_text(n: nat) -> Seq<char> {
    entry_prefix() + dec_digits(n) + entry_suffix()
}

/// Reads the index out of one file name, `None` for any name that is
/// not an auto-generated entry name.
pub fn parse_entry_index(name: &str) -> (r: Option<u32>)
    ensures
        match r {
            Some(n) => entry_index_of(name@) == Some(n as nat),
            None => entry_index_of(name@) is None,
        },
{
    let len = name.unicode_len();
    if len < 11 {
        return None;
    }
    if !(name.get_char(0) == 'e' && name.get_char(1) == 'n' && name.get_char(2) == 't'
        && name.get_char(3) == 'r' && name.get_char(4) == 'y' && name.get_char(5) == '_') {
        proof {
            assert(name@.subrange(0, 6) != entry_prefix());
        }
        return None;
    }
    if !(name.get_char(len - 4) == '.' && name.get_char(len - 3) == 'e' && name.get_char(len - 2)
        == 'n' && name.get_char(len - 1) == 'c') {
        proof {
            assert(name@.subrange(len - 4, len as int) != entry_suffix());
        }
        return None;
    }
    proof {
        assert(name@.subrange(0, 6) =~= entry_prefix());
        assert(name@.subrange(len - 4, len as int) =~= entry_suffix());
    }
    let mut value: u64 = 0;
    let mut over: bool = false;
    let mut i: usize = 6;
    while i < len - 4
        invariant
            6 <= i <= len - 4,
            11 <= len == name@.len(),
            forall|k: int| 6 <= k < i ==> is_digit(#[trigger] name@[k]),
            !over ==> value == digits_value(name@.subrange(6, i as int)) && value <= u32::MAX,
            over ==> digits_value(name@.subrange(6, i as int)) > u32::MAX,
        decreases len - 4 - i,
    {
        let c = name.get_char(i);
        if !('0' <= c && c <= '9') {
            proof {
                assert(name@.subrange(6, len - 4)[i - 6] == name@[i as int]);
                assert(!all_digits(name@.subrange(6, len - 4)));
            }
            return None;
        }
        proof {
            assert(name@.subrange(6, i + 1 as int).drop_last() =~= name@.subrange(6, i as int));
            assert(name@.subrange(6, i + 1 as int).last() == name@[i as int]);
        }
        let d: u64 = (c as u32 as u64) - 48;
        if !over {
            let next: u64 = value * 10 + d;
            if next > 0xffff_ffff {
                over = true;
            } else {
                value = next;
            }
        }
        i = i + 1;
    }
    proof {
        assert(name@.subrange(6, len - 4) =~= name@.subrange(6, (len - 4) as int));
        assert(all_digits(name@.subrange(6, len - 4)));
    }
    if over {
        return None;
    }
    Some(value as u32)
}

/// The next auto-generated entry name: one more than the highest index
/// the existing names carry.
pub fn next_entry_name(existing: &Vec<String>) -> (r: String)
    ensures
        r@ == entry_name_text(max_entry_index(existing.deep_view()) + 1),
{
    let mut max: u32 = 0;
    let mut i: usize = 0;
    while i < existing.len()
        invariant
            0 <= i <= existing@.len(),
            existing.deep_view().len() == existing@.len(),
            forall|k: int| 0 <= k < existing@.len()
                ==> existing.deep_view()[k] == #[trigger] existing@[k]@,
            max as nat == max_entry_index(existing.deep_view().subrange(0, i as int)),
        decreases existing@.len() - i,
    {
        let parsed = parse_entry_index(existing[i].as_str());
        proof {
            let prefix = existing.deep_view().subrange(0, i + 1 as int);
            assert(prefix.drop_last() =~= existing.deep_view().subrange(0, i as int));
            assert(prefix.last() == existing@[i as int]@);
        }
        match parsed {
            Some(n) => {
                if n > max {
                    max = n;
                }
            },
            None => {},
        }
        i = i + 1;
    }
    proof {
        assert(existing.deep_view().subrange(0, existing@.len() as int) =~= existing.deep_view());
    }
    let next: u64 = max as u64 + 1;
    let mut chars: Vec<char> = Vec::new();
    chars.push('e');
    chars.push('n');
    chars.push('t');
    chars.push('r');
    chars.push('y');
    chars.push('_');
    let mut digits = format_u64(next);
    chars.append(&mut digits);
    chars.push('.');
    chars.push('e');
    chars.push('n');
    chars.push('c');
    proof {
        assert(chars@ =~= entry_name_text(next as nat));
    }
    chars_to_string(&chars)
}

/// The decimal text of a number is a digit run denoting that number.
proof fn lemma_dec_digits_value(n: nat)
    ensures
        all_digits(dec_digits(n)),
        digits_value(dec_digits(n)) == n,
    decreases n,
{
    if n < 10 {
        assert(digit_char(n) as int == '0' as int + n);
        assert(is_digit(digit_char(n)));
        assert(dec_digits(n).drop_last() =~= Seq::<char>::empty());
        assert(digits_value(Seq::<char>::empty()) == 0);
        assert(dec_digits(n).last() == digit_char(n));
        assert(digits_value(dec_digits(n)) == (0 * 10 + (digit_char(n) as int
            - '0' as int)) as nat);
    } else {
        lemma_dec_digits_value(n / 10);
        let s = dec_digits(n);
        assert(s.drop_last() =~= dec_digits(n / 10));
        assert(s.last() == digit_char((n % 10) as nat));
        assert(digit_char((n % 10) as nat) as int == '0' as int + n % 10);
        assert(is_digit(digit_char((n % 10) as nat)));
        assert(digits_value(s) == (n / 10) * 10 + n % 10);
        assert((n / 10) * 10 + n % 10 == n) by (nonlinear_arith);
        assert(forall|i: int| 0 <= i < s.len() - 1 ==> s[i] == dec_digits(n / 10)[i]);
        assert(forall|i: int| 0 <= i < s.len() ==> is_digit(#[trigger] s[i]));
    }
}

/// The generated name for index `n` is an entry name carrying `n`,
/// as long as `n` fits 32 bits.
proof fn lemma_entry_name_index(n: nat)
    requires
        n <= u32::MAX,
    ensures
        entry_index_of(entry_name_text(n)) == Some(n),
{
    lemma_dec_digits_value(n);
    let name = entry_name_text(n);
    let len = name.len() as int;
    assert(len >= 11);
    assert(name.subrange(0, 6) =~= entry_prefix());
    assert(name.subrange(len - 4, len) =~= entry_suffix());
    assert(name.subrange(6, len - 4) =~= dec_digits(n));
}

/// No name carries an index above the highest.
proof fn lemma_max_entry_index_is_bound(names: Seq<Seq<char>>)
    ensures
        forall|i: int| 0 <= i < names.len() ==> (match entry_index_of(#[trigger] names[i]) {
            Some(k) => k <= max_entry_index(names),
            None => true,
        }),
    decreases names.len(),
{
    if names.len() > 0 {
        lemma_max_entry_index_is_bound(names.drop_last());
        assert(forall|i: int| 0 <= i < names.len() - 1 ==> names[i] == names.drop_last()[i]);
    }
}

/// Freshness of the generated name: as long as the highest existing
/// index is below the largest 32-bit value, the next auto-generated
/// name is itself an entry name carrying the new index, and it differs
/// from every name already in the list — an auto-named entry never
/// collides with an existing file.
pub proof fn lemma_next_name_fresh(names: Seq<Seq<char>>)
    requires
        max_entry_index(names) < u32::MAX,
    ensures
        entry_index_of(entry_name_text(max_entry_index(names) + 1)) == Some(
            max_entry_index(names) + 1,
        ),
        forall|i: int| 0 <= i < names.len() ==> names[i] != entry_name_text(
            max_entry_index(names) + 1,
        ),
{
    let next = max_entry_index(names) + 1;
    lemma_entry_name_index(next);
    lemma_max_entry_index_is_bound(names);
    assert forall|i: int| 0 <= i < names.len() implies names[i] != entry_name_text(next) by {
        if names[i] == entry_name_text(next) {
            assert(entry_index_of(names[i]) == Some(next));
        }
    }
}

/// The decimal text of `n`, as characters.
fn format_u64(n: u64) -> (r: Vec<char>)
    ensures
        r@ == dec_digits(n as nat),
    decreases n,
{
    if n < 10 {
        let c: char = ((48 + n) as u8) as char;
        let mut v: Vec<char> = Vec::new();
        v.push(c);
        proof {
            assert(v@ =~= dec_digits(n as nat));
        }
        v
    } else {
        let mut v = format_u64(n / 10);
        let c: char = ((48 + (n % 10)) as u8) as char;
        v.push(c);
        proof {
            assert(v@ =~= dec_digits((n / 10) as nat) + seq![digit_char((n % 10) as nat)]);
        }
        v
    }
}

/// Relies on String's FromIterator over char: the string holding
/// exactly these characters in order.
#[verifier::external_body]
fn chars_to_string(chars: &Vec<char>) -> (r: String)
    ensures
        r@ == chars@,
{
    chars.iter().collect()
}

} // verus!
