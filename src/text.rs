use vstd::prelude::*;
use vstd::std_specs::iter::IteratorSpec;

verus! {

broadcast use vstd::string::axiom_spec_iter, vstd::string::next_postcondition;

/// The characters of `s`, in order.
pub fn chars_of(s: &str) -> (r: Vec<char>)
    ensures
        r@ == s@,
{
    let mut it = s.chars();
    let mut out: Vec<char> = Vec::new();
    loop
        invariant
            it.obeys_prophetic_iter_laws(),
            it.decrease() is Some,
            out@ + it.remaining() == s@,
        ensures
            out@ == s@,
        decreases it.decrease()->0,
    {
        match it.next() {
            Some(c) => {
                out.push(c);
            },
            None => {
                assert(out@ =~= s@);
                break;
            },
        }
    }
    out
}

} // verus!

verus! {

pub open spec fn is_lower(c: char) -> bool {
    'a' <= c && c <= 'z'
}

pub open spec fn is_upper(c: char) -> bool {
    'A' <= c && c <= 'Z'
}

pub open spec fn is_digit(c: char) -> bool {
    '0' <= c && c <= '9'
}

/// Anything that is not an ASCII letter or digit counts as a symbol.
pub open spec fn is_symbol(c: char) -> bool {
    !is_lower(c) && !is_upper(c) && !is_digit(c)
}

pub open spec fn has_lower(s: Seq<char>) -> bool {
    exists|i: int| 0 <= i < s.len() && is_lower(#[trigger] s[i])
}

pub open spec fn has_upper(s: Seq<char>) -> bool {
    exists|i: int| 0 <= i < s.len() && is_upper(#[trigger] s[i])
}

pub open spec fn has_digit(s: Seq<char>) -> bool {
    exists|i: int| 0 <= i < s.len() && is_digit(#[trigger] s[i])
}

pub open spec fn has_symbol(s: Seq<char>) -> bool {
    exists|i: int| 0 <= i < s.len() && is_symbol(#[trigger] s[i])
}

/// How many of the four character classes occur in `s`.
pub open spec fn class_count(s: Seq<char>) -> int {
    (if has_lower(s) { 1int } else { 0 }) + (if has_upper(s) { 1int } else { 0 }) + (if has_digit(
        s,
    ) {
        1int
    } else {
        0
    }) + (if has_symbol(s) { 1int } else { 0 })
}

pub const MIN_PASSWORD_CHARS: usize = 8;

/// The longest password that can be hashed: a character takes at most four
/// bytes in UTF-8, so this many stay within argon2's limit of `u32::MAX` bytes.
pub const MAX_PASSWORD_CHARS: usize = 0x3fff_ffff;

pub const MIN_PASSWORD_CLASSES: usize = 3;

/// The strength policy: a minimum length, at least three character classes,
/// and no more characters than can be hashed.
pub open spec fn is_strong_password(s: Seq<char>) -> bool {
    &&& MIN_PASSWORD_CHARS <= s.len() <= MAX_PASSWORD_CHARS
    &&& class_count(s) >= MIN_PASSWORD_CLASSES
}

pub fn meets_password_policy(password: &str) -> (r: bool)
    ensures
        r == is_strong_password(password@),
{
    let cs = chars_of(password);
    if cs.len() < MIN_PASSWORD_CHARS || cs.len() > MAX_PASSWORD_CHARS {
        return false;
    }
    let mut lower = false;
    let mut upper = false;
    let mut digit = false;
    let mut symbol = false;
    let mut i: usize = 0;
    while i < cs.len()
        invariant
            i <= cs@.len(),
            cs@ == password@,
            lower == has_lower(cs@.subrange(0, i as int)),
            upper == has_upper(cs@.subrange(0, i as int)),
            digit == has_digit(cs@.subrange(0, i as int)),
            symbol == has_symbol(cs@.subrange(0, i as int)),
        decreases cs@.len() - i,
    {
        let c = cs[i];
        let ghost prev = cs@.subrange(0, i as int);
        let ghost next = cs@.subrange(0, i as int + 1);
        assert(next =~= prev.push(c));
        assert(forall|j: int| 0 <= j < prev.len() ==> next[j] == prev[j]);
        if 'a' <= c && c <= 'z' {
            lower = true;
            assert(is_lower(next[i as int]));
        } else if 'A' <= c && c <= 'Z' {
            upper = true;
            assert(is_upper(next[i as int]));
        } else if '0' <= c && c <= '9' {
            digit = true;
            assert(is_digit(next[i as int]));
        } else {
            symbol = true;
            assert(is_symbol(next[i as int]));
        }
        i = i + 1;
    }
    assert(cs@.subrange(0, cs@.len() as int) =~= cs@);
    let count: usize = (if lower { 1usize } else { 0 }) + (if upper { 1usize } else { 0 }) + (
    if digit {
        1usize
    } else {
        0
    }) + (if symbol { 1usize } else { 0 });
    count >= MIN_PASSWORD_CLASSES
}

pub const MAX_USERNAME_CHARS: usize = 256;

/// Characters that a username may not hold.
pub open spec fn is_forbidden_in_name(c: char) -> bool {
    c == '/' || c == '(' || c == ')' || c == '"' || c == '<' || c == '>' || c == '\\' || c == '{'
        || c == '}' || c == ' '
}

/// A username is non-empty, bounded in length and free of forbidden characters.
pub open spec fn is_valid_username(s: Seq<char>) -> bool {
    &&& 1 <= s.len() <= MAX_USERNAME_CHARS
    &&& forall|i: int| 0 <= i < s.len() ==> !is_forbidden_in_name(#[trigger] s[i])
}

pub fn is_username_valid(name: &str) -> (r: bool)
    ensures
        r == is_valid_username(name@),
{
    let cs = chars_of(name);
    if cs.len() < 1 || cs.len() > MAX_USERNAME_CHARS {
        return false;
    }
    let mut i: usize = 0;
    while i < cs.len()
        invariant
            i <= cs@.len(),
            cs@ == name@,
            forall|j: int| 0 <= j < i ==> !is_forbidden_in_name(#[trigger] cs@[j]),
        decreases cs@.len() - i,
    {
        let c = cs[i];
        if c == '/' || c == '(' || c == ')' || c == '"' || c == '<' || c == '>' || c == '\\' || c
            == '{' || c == '}' || c == ' ' {
            return false;
        }
        i = i + 1;
    }
    true
}

pub const MAX_EMAIL_CHARS: usize = 320;

/// An address of the shape `local@domain`: one `@`, with text on both sides, and no space.
pub open spec fn is_valid_email(s: Seq<char>) -> bool {
    &&& s.len() <= MAX_EMAIL_CHARS
    &&& forall|j: int| 0 <= j < s.len() ==> #[trigger] s[j] != ' '
    &&& exists|k: int|
        0 < k < s.len() - 1 && #[trigger] s[k] == '@' && forall|j: int|
            0 <= j < s.len() && j != k ==> #[trigger] s[j] != '@'
}

pub fn is_email_valid(email: &str) -> (r: bool)
    ensures
        r == is_valid_email(email@),
{
    let cs = chars_of(email);
    if cs.len() > MAX_EMAIL_CHARS {
        return false;
    }
    let mut at: Option<usize> = None;
    let mut i: usize = 0;
    while i < cs.len()
        invariant
            i <= cs@.len(),
            cs@ == email@,
            forall|j: int| 0 <= j < i ==> #[trigger] cs@[j] != ' ',
            match at {
                None => forall|j: int| 0 <= j < i ==> #[trigger] cs@[j] != '@',
                Some(k) => k < i && cs@[k as int] == '@' && forall|j: int|
                    0 <= j < i && j != k ==> #[trigger] cs@[j] != '@',
            },
        decreases cs@.len() - i,
    {
        let c = cs[i];
        if c == ' ' {
            return false;
        }
        if c == '@' {
            match at {
                Some(k) => {
                    assert(cs@[k as int] == '@' && cs@[i as int] == '@');
                    return false;
                },
                None => {
                    at = Some(i);
                },
            }
        }
        i = i + 1;
    }
    match at {
        None => false,
        Some(k) => 0 < k && k + 1 < cs.len(),
    }
}

} // verus!
