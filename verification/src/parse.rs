//! Byte-level parsing of the two chat commands.
//!
//! A command is a plain-text message. `!verify <token>` carries the token the
//! author echoes back; `!ver-config <channel_id> <verified_role_id>` carries
//! the two unsigned 64-bit integers of a new configuration. Arguments are the
//! space-separated fields after the command word.

use crate::config::Config;
use vstd::prelude::*;

verus! {

/// ASCII space, the field separator of both commands.
pub const SPACE: u8 = 32;

/// ASCII decimal digit, `0`-`9` (48-57).
pub open spec fn is_digit_byte(b: u8) -> bool {
    48 <= b && b <= 57
}

pub open spec fn all_digits(s: Seq<u8>) -> bool {
    forall|i: int| 0 <= i < s.len() ==> is_digit_byte(#[trigger] s[i])
}

/// The value of a digit string read as a decimal numeral.
pub open spec fn dec_value(s: Seq<u8>) -> int
    decreases s.len(),
{
    if s.len() == 0 {
        0
    } else {
        dec_value(s.drop_last()) * 10 + (s.last() as int - 48)
    }
}

/// What parsing an unsigned 64-bit decimal numeral yields: the value of a
/// nonempty, all-digit string whose value fits in 64 bits, nothing otherwise.
pub open spec fn spec_parse_u64(s: Seq<u8>) -> Option<u64> {
    if s.len() > 0 && all_digits(s) && dec_value(s) <= u64::MAX {
        Some(dec_value(s) as u64)
    } else {
        None
    }
}

proof fn lemma_dec_value_nonneg(s: Seq<u8>)
    requires
        all_digits(s),
    ensures
        dec_value(s) >= 0,
    decreases s.len(),
{
    if s.len() > 0 {
        assert(all_digits(s.drop_last()));
        lemma_dec_value_nonneg(s.drop_last());
    }
}

/// A decimal numeral is at least as large as any of its prefixes.
proof fn lemma_dec_value_prefix(s: Seq<u8>, i: int)
    requires
        all_digits(s),
        0 <= i <= s.len(),
    ensures
        dec_value(s.subrange(0, i)) <= dec_value(s),
    decreases s.len(),
{
    if i == s.len() {
        assert(s.subrange(0, i) =~= s);
    } else {
        let t = s.drop_last();
        assert(all_digits(t));
        lemma_dec_value_prefix(t, i);
        assert(t.subrange(0, i) =~= s.subrange(0, i));
        lemma_dec_value_nonneg(t);
        assert(s.last() as int - 48 >= 0);
    }
}

/// Parses a nonempty all-digit byte string as an unsigned 64-bit integer;
/// `None` on an empty string, a non-digit byte, or a value over `u64::MAX`.
pub fn parse_u64(s: &[u8]) -> (r: Option<u64>)
    ensures
        r == spec_parse_u64(s@),
{
    if s.len() == 0 {
        return None;
    }
    let mut acc: u64 = 0;
    let mut i: usize = 0;
    while i < s.len()
        invariant
            0 < s@.len(),
            i <= s@.len(),
            forall|k: int| 0 <= k < i ==> is_digit_byte(#[trigger] s@[k]),
            acc as int == dec_value(s@.subrange(0, i as int)),
        decreases s@.len() - i,
    {
        let b = *vstd::slice::slice_index_get(s, i);
        if !(48 <= b && b <= 57) {
            assert(!all_digits(s@));
            return None;
        }
        let d = (b - 48) as u64;
        proof {
            let t = s@.subrange(0, i + 1);
            assert(t.drop_last() =~= s@.subrange(0, i as int));
            assert(t.last() == s@[i as int]);
            assert(dec_value(t) == acc as int * 10 + d);
        }
        let next = match acc.checked_mul(10) {
            Some(m) => m.checked_add(d),
            None => None,
        };
        match next {
            Some(a) => {
                acc = a;
            },
            None => {
                proof {
                    if all_digits(s@) {
                        lemma_dec_value_prefix(s@, i + 1);
                        assert(dec_value(s@) > u64::MAX);
                    }
                }
                return None;
            },
        }
        i += 1;
    }
    proof {
        assert(s@.subrange(0, s@.len() as int) =~= s@);
    }
    Some(acc)
}

/// `p` stands at the front of `s`.
pub open spec fn bytes_have_prefix(s: Seq<u8>, p: Seq<u8>) -> bool {
    p.len() <= s.len() && s.subrange(0, p.len() as int) == p
}

/// Prefix test over byte strings.
pub fn has_prefix(s: &[u8], p: &[u8]) -> (r: bool)
    ensures
        r == bytes_have_prefix(s@, p@),
{
    if p.len() > s.len() {
        return false;
    }
    let mut i: usize = 0;
    while i < p.len()
        invariant
            i <= p@.len() <= s@.len(),
            forall|k: int| 0 <= k < i ==> s@[k] == p@[k],
        decreases p@.len() - i,
    {
        if *vstd::slice::slice_index_get(s, i) != *vstd::slice::slice_index_get(p, i) {
            assert(s@.subrange(0, p@.len() as int)[i as int] != p@[i as int]);
            return false;
        }
        i += 1;
    }
    assert(s@.subrange(0, p@.len() as int) =~= p@);
    true
}

/// Equality of byte strings.
pub fn bytes_eq(a: &[u8], b: &[u8]) -> (r: bool)
    ensures
        r == (a@ == b@),
{
    if a.len() != b.len() {
        return false;
    }
    let mut i: usize = 0;
    while i < a.len()
        invariant
            i <= a@.len() == b@.len(),
            forall|k: int| 0 <= k < i ==> a@[k] == b@[k],
        decreases a@.len() - i,
    {
        if *vstd::slice::slice_index_get(a, i) != *vstd::slice::slice_index_get(b, i) {
            return false;
        }
        i += 1;
    }
    assert(a@ =~= b@);
    true
}

/// Index of the first occurrence of `sep` in `s`, or `s.len()` if none.
pub open spec fn first_sep(s: Seq<u8>, sep: u8) -> int
    decreases s.len(),
{
    if s.len() == 0 {
        0
    } else if s[0] == sep {
        0
    } else {
        1 + first_sep(s.skip(1), sep)
    }
}

proof fn lemma_first_sep_props(s: Seq<u8>, sep: u8)
    ensures
        0 <= first_sep(s, sep) <= s.len(),
        first_sep(s, sep) < s.len() ==> s[first_sep(s, sep)] == sep,
        forall|j: int| 0 <= j < first_sep(s, sep) ==> s[j] != sep,
    decreases s.len(),
{
    if s.len() > 0 && s[0] != sep {
        lemma_first_sep_props(s.skip(1), sep);
        assert forall|j: int| 0 <= j < first_sep(s, sep) implies s[j] != sep by {
            if j > 0 {
                assert(s.skip(1)[j - 1] == s[j]);
            }
        }
        if first_sep(s, sep) < s.len() {
            assert(s.skip(1)[first_sep(s, sep) - 1] == s[first_sep(s, sep)]);
        }
    }
}

proof fn lemma_first_sep_at(s: Seq<u8>, sep: u8, i: int)
    requires
        0 <= i < s.len(),
        s[i] == sep,
        forall|j: int| 0 <= j < i ==> s[j] != sep,
    ensures
        first_sep(s, sep) == i,
{
    lemma_first_sep_props(s, sep);
}

proof fn lemma_first_sep_none(s: Seq<u8>, sep: u8)
    requires
        forall|j: int| 0 <= j < s.len() ==> s[j] != sep,
    ensures
        first_sep(s, sep) == s.len(),
{
    lemma_first_sep_props(s, sep);
}

/// The fields of `s` separated by `sep`, in order. An empty string has one
/// empty field; adjacent separators enclose an empty field, as `str::split`
/// has it.
pub open spec fn spec_split(s: Seq<u8>, sep: u8) -> Seq<Seq<u8>>
    decreases s.len(),
{
    let i = first_sep(s, sep);
    if 0 <= i && i < s.len() {
        seq![s.subrange(0, i)] + spec_split(s.skip(i + 1), sep)
    } else {
        seq![s]
    }
}

/// Splitting a suffix whose first separator stands at `j` yields the field up
/// to `j` followed by the split of what is past it.
proof fn lemma_split_step(s: Seq<u8>, sep: u8, start: int, j: int)
    requires
        0 <= start <= j < s.len(),
        forall|k: int| start <= k < j ==> s[k] != sep,
        s[j] == sep,
    ensures
        spec_split(s.skip(start), sep) == seq![s.subrange(start, j)] + spec_split(
            s.skip(j + 1),
            sep,
        ),
{
    let t = s.skip(start);
    assert forall|k: int| 0 <= k < j - start implies t[k] != sep by {
        assert(t[k] == s[k + start]);
    }
    assert(t[j - start] == s[j]);
    lemma_first_sep_at(t, sep, j - start);
    assert(t.subrange(0, j - start) =~= s.subrange(start, j));
    assert(t.skip(j - start + 1) =~= s.skip(j + 1));
}

/// Splits `s` at every occurrence of `sep`.
pub fn split_bytes(s: &[u8], sep: u8) -> (r: Vec<Vec<u8>>)
    ensures
        r.deep_view() == spec_split(s@, sep),
{
    let mut fields: Vec<Vec<u8>> = Vec::new();
    let mut cur: Vec<u8> = Vec::new();
    let mut i: usize = 0;
    proof {
        assert(fields.deep_view() =~= Seq::<Seq<u8>>::empty());
        assert(s@.skip(0) =~= s@);
        assert(Seq::<Seq<u8>>::empty() + spec_split(s@, sep) =~= spec_split(s@, sep));
    }
    while i < s.len()
        invariant
            i <= s@.len(),
            cur@.len() <= i,
            cur@ == s@.subrange(i - cur@.len(), i as int),
            forall|k: int| i - cur@.len() <= k < i ==> s@[k] != sep,
            spec_split(s@, sep) == fields.deep_view() + spec_split(
                s@.skip(i - cur@.len()),
                sep,
            ),
        decreases s@.len() - i,
    {
        let b = *vstd::slice::slice_index_get(s, i);
        if b == sep {
            proof {
                lemma_split_step(s@, sep, i - cur@.len(), i as int);
            }
            let ghost old_fields = fields.deep_view();
            let ghost done = cur@;
            fields.push(cur);
            cur = Vec::new();
            proof {
                assert(fields.deep_view() =~~= old_fields.push(done));
                assert(old_fields.push(done) + spec_split(s@.skip(i + 1), sep) =~= old_fields
                    + (seq![done] + spec_split(s@.skip(i + 1), sep)));
            }
        } else {
            cur.push(b);
            proof {
                assert(cur@ =~= s@.subrange(i + 1 - cur@.len(), i + 1));
            }
        }
        i += 1;
    }
    proof {
        let start = i - cur@.len();
        let t = s@.skip(start);
        assert forall|j: int| 0 <= j < t.len() implies t[j] != sep by {
            assert(t[j] == s@[j + start]);
        }
        lemma_first_sep_none(t, sep);
        assert(t =~= cur@);
    }
    let ghost old_fields = fields.deep_view();
    let ghost done = cur@;
    fields.push(cur);
    proof {
        assert(fields.deep_view() =~~= old_fields.push(done));
        assert(old_fields.push(done) =~= old_fields + seq![done]);
    }
    fields
}

/// The bytes of `!verify`.
pub open spec fn verify_prefix() -> Seq<u8> {
    seq![33u8, 118u8, 101u8, 114u8, 105u8, 102u8, 121u8]
}

/// The bytes of `!ver-config`.
pub open spec fn config_prefix() -> Seq<u8> {
    seq![33u8, 118u8, 101u8, 114u8, 45u8, 99u8, 111u8, 110u8, 102u8, 105u8, 103u8]
}

/// The message is a verification attempt: it opens with `!verify`.
pub open spec fn is_verify_command(s: Seq<u8>) -> bool {
    bytes_have_prefix(s, verify_prefix())
}

/// The message is a reconfiguration command: it opens with `!ver-config`.
pub open spec fn is_config_command(s: Seq<u8>) -> bool {
    bytes_have_prefix(s, config_prefix())
}

/// The space-separated fields of a message.
pub open spec fn fields_of(s: Seq<u8>) -> Seq<Seq<u8>> {
    spec_split(s, SPACE)
}

/// The token submitted in a `!verify` message: the field after the command
/// word, absent when the message has no second field.
pub open spec fn verify_arg(s: Seq<u8>) -> Option<Seq<u8>> {
    if fields_of(s).len() >= 2 {
        Some(fields_of(s)[1])
    } else {
        None
    }
}

/// The configuration a `!ver-config` message asks for: its second and third
/// fields read as unsigned 64-bit integers, absent when a field is missing or
/// malformed.
pub open spec fn config_args(s: Seq<u8>) -> Option<Config> {
    let fs = fields_of(s);
    if fs.len() < 3 {
        None
    } else {
        match spec_parse_u64(fs[1]) {
            Option::Some(ch) => match spec_parse_u64(fs[2]) {
                Option::Some(role) => Some(
                    Config { channel_id: ch, verified_role_id: role },
                ),
                Option::None => None,
            },
            Option::None => None,
        }
    }
}

/// Extracts the submitted token of a `!verify` message.
pub fn get_verify_arg(content: &[u8]) -> (r: Option<Vec<u8>>)
    ensures
        match r {
            Some(v) => verify_arg(content@) == Some(v@),
            None => verify_arg(content@) is None,
        },
{
    let mut fs = split_bytes(content, SPACE);
    proof {
        assert(fs.deep_view().len() == fs@.len());
    }
    if fs.len() >= 2 {
        let v = fs.remove(1);
        proof {
            assert(v.deep_view() =~= v@);
            assert(fields_of(content@)[1] == v@);
        }
        Some(v)
    } else {
        None
    }
}

/// Extracts and parses the two arguments of a `!ver-config` message.
pub fn get_config_args(content: &[u8]) -> (r: Option<Config>)
    ensures
        r == config_args(content@),
{
    let mut fs = split_bytes(content, SPACE);
    proof {
        assert(fs.deep_view().len() == fs@.len());
    }
    if fs.len() < 3 {
        return None;
    }
    let f2 = fs.remove(2);
    let f1 = fs.remove(1);
    proof {
        assert(f1.deep_view() =~= f1@);
        assert(f2.deep_view() =~= f2@);
        assert(fields_of(content@)[1] == f1@);
        assert(fields_of(content@)[2] == f2@);
    }
    let ch = parse_u64(f1.as_slice());
    let role = parse_u64(f2.as_slice());
    match (ch, role) {
        (Some(c), Some(r)) => Some(Config { channel_id: c, verified_role_id: r }),
        _ => None,
    }
}

} // verus!
