use vstd::prelude::*;
use crate::text;
use crate::text::{
    chars_are, chars_of, copy_chars, contains_char, push_chars, push_str, split_chars, to_ascii_lower,
    trim_chars,
};

verus! {

/// Whether every character of `s` is an ASCII digit.
pub open spec fn all_ascii_digits(s: Seq<char>) -> bool {
    forall|i: int| 0 <= i < s.len() ==> '0' <= #[trigger] s[i] && s[i] <= '9'
}

/// The number written by the ASCII digits `s` in base ten.
pub open spec fn decimal_value(s: Seq<char>) -> int
    decreases s.len(),
{
    if s.len() == 0 {
        0
    } else {
        decimal_value(s.drop_last()) * 10 + ((s.last() as u32) - ('0' as u32))
    }
}

/// Whether `str::parse::<i64>` accepts `s`: an optional sign, then at least
/// one ASCII digit and nothing else, for a number within the range of `i64`.
pub open spec fn parses_as_i64(s: Seq<char>) -> bool {
    if s.len() > 0 && s[0] == '-' {
        let d = s.drop_first();
        d.len() > 0 && all_ascii_digits(d) && decimal_value(d) <= 0x8000_0000_0000_0000
    } else if s.len() > 0 && s[0] == '+' {
        let d = s.drop_first();
        d.len() > 0 && all_ascii_digits(d) && decimal_value(d) <= 0x7fff_ffff_ffff_ffff
    } else {
        s.len() > 0 && all_ascii_digits(s) && decimal_value(s) <= 0x7fff_ffff_ffff_ffff
    }
}

/// The bound above which a decimal value is no longer tracked exactly.
spec fn cap() -> int {
    0x8000_0000_0000_0001
}

/// Whether the ASCII digits `d[from..]` are all digits, and their value capped.
fn digits_value_capped(d: &[char], from: usize) -> (r: Option<u128>)
    requires
        from <= d@.len(),
    ensures
        match r {
            Some(v) => all_ascii_digits(d@.skip(from as int)) && v as int == if decimal_value(
                d@.skip(from as int),
            ) < cap() {
                decimal_value(d@.skip(from as int))
            } else {
                cap()
            },
            None => !all_ascii_digits(d@.skip(from as int)),
        },
{
    let ghost t = d@.skip(from as int);
    let mut acc: u128 = 0;
    let mut i: usize = from;
    assert(t.take(0) =~= Seq::<char>::empty());
    while i < d.len()
        invariant
            from <= i <= d@.len(),
            t == d@.skip(from as int),
            all_ascii_digits(t.take(i - from)),
            acc as int == if decimal_value(t.take(i - from)) < cap() {
                decimal_value(t.take(i - from))
            } else {
                cap()
            },
            decimal_value(t.take(i - from)) >= 0,
        decreases d@.len() - i,
    {
        let c = d[i];
        if c < '0' || c > '9' {
            assert(t[i - from] == c);
            return None;
        }
        let digit = ((c as u32) - ('0' as u32)) as u128;
        let ghost prev = t.take(i - from);
        i = i + 1;
        assert(t.take(i - from).drop_last() =~= prev);
        assert(t.take(i - from).last() == c);
        let next = acc * 10 + digit;
        acc = if next < 0x8000_0000_0000_0001 {
            next
        } else {
            0x8000_0000_0000_0001
        };
    }
    assert(t.take(i - from) =~= t);
    Some(acc)
}

/// Whether `s` is a number that `str::parse::<i64>` accepts.
pub fn is_i64_number(s: &[char]) -> (r: bool)
    ensures
        r == parses_as_i64(s@),
{
    if s.len() == 0 {
        return false;
    }
    let from: usize = if s[0] == '-' || s[0] == '+' {
        1
    } else {
        0
    };
    if from == 1 {
        assert(s@.skip(1) =~= s@.drop_first());
    } else {
        assert(s@.skip(0) =~= s@);
    }
    if from >= s.len() {
        return false;
    }
    match digits_value_capped(s, from) {
        None => false,
        Some(v) => {
            if s[0] == '-' {
                v <= 0x8000_0000_0000_0000
            } else {
                v <= 0x7fff_ffff_ffff_ffff
            }
        },
    }
}

/// The key and the value of one cookie attribute: what stands before the
/// first `=` and between it and the next `=`, or the whole attribute and
/// an empty value when it holds no `=`.
pub open spec fn attr_key_value(attr: Seq<char>) -> (Seq<char>, Seq<char>) {
    if attr.contains('=') {
        let p = text::split_on(attr, '=');
        (p[0], p[1])
    } else {
        (attr, Seq::<char>::empty())
    }
}

/// The error that one non-empty, trimmed cookie attribute gives, if any.
pub open spec fn cookie_attr_error(attr: Seq<char>) -> Option<Seq<char>> {
    let key = attr_key_value(attr).0;
    let value = attr_key_value(attr).1;
    let k = text::ascii_lower(key);
    if k == "samesite"@ {
        let v = text::ascii_lower(value);
        if v == "strict"@ || v == "lax"@ || v == "none"@ {
            None
        } else {
            Some("Invalid SameSite value: "@ + value + ". Must be Strict, Lax, or None."@)
        }
    } else if k == "secure"@ {
        if value.len() > 0 {
            Some("Secure attribute does not take a value"@)
        } else {
            None
        }
    } else if k == "httponly"@ {
        if value.len() > 0 {
            Some("HttpOnly attribute does not take a value"@)
        } else {
            None
        }
    } else if k == "domain"@ {
        if value.len() == 0 {
            Some("Domain attribute must have a value"@)
        } else {
            None
        }
    } else if k == "path"@ {
        if value.len() == 0 {
            Some("Path attribute must have a value"@)
        } else {
            None
        }
    } else if k == "max-age"@ {
        if !parses_as_i64(value) {
            Some("Max-Age attribute must be a number"@)
        } else {
            None
        }
    } else if k == "expires"@ {
        if value.len() == 0 {
            Some("Expires attribute must have a value"@)
        } else {
            None
        }
    } else if k == "partitioned"@ {
        if value.len() > 0 {
            Some("Partitioned attribute does not take a value"@)
        } else {
            None
        }
    } else {
        Some(
            "Invalid cookie attribute: '"@ + k
                + "'.\n  Valid attributes are: SameSite, Secure, HttpOnly, Domain, Path, Max-Age, Expires, Partitioned."@,
        )
    }
}

/// The errors of the attributes `pieces`, in order; blank pieces are skipped.
pub open spec fn cookie_errors_of(pieces: Seq<Seq<char>>) -> Seq<Seq<char>>
    decreases pieces.len(),
{
    if pieces.len() == 0 {
        Seq::empty()
    } else {
        let prev = cookie_errors_of(pieces.drop_last());
        let attr = text::trim(pieces.last());
        if attr.len() == 0 {
            prev
        } else {
            match cookie_attr_error(attr) {
                Some(e) => prev.push(e),
                None => prev,
            }
        }
    }
}

/// The errors of a cookie attributes string: its `;`-separated attributes,
/// each checked on its own.
pub open spec fn cookie_attrs_errors(s: Seq<char>) -> Seq<Seq<char>> {
    cookie_errors_of(text::split_on(s, ';'))
}

proof fn lemma_split_on_append(a: Seq<char>, b: Seq<char>, sep: char)
    ensures
        text::split_on(a.push(sep) + b, sep) == text::split_on(a, sep) + text::split_on(b, sep),
    decreases b.len(),
{
    let s = a.push(sep) + b;
    if b.len() == 0 {
        assert(s =~= a.push(sep));
        assert(s.drop_last() =~= a);
        assert(text::split_on(b, sep) =~= seq![Seq::<char>::empty()]);
        assert(text::split_on(s, sep) =~= text::split_on(a, sep) + text::split_on(b, sep));
    } else {
        assert(s.drop_last() =~= a.push(sep) + b.drop_last());
        assert(s.last() == b.last());
        lemma_split_on_append(a, b.drop_last(), sep);
        text::lemma_split_on_nonempty(b.drop_last(), sep);
        let x = text::split_on(a, sep);
        let y = text::split_on(b.drop_last(), sep);
        if b.last() == sep {
            assert(text::split_on(s, sep) =~= x + y.push(Seq::<char>::empty()));
        } else {
            assert((x + y).last() == y.last());
            assert((x + y).update((x + y).len() - 1, y.last().push(b.last())) =~= x + y.update(
                y.len() - 1,
                y.last().push(b.last()),
            ));
        }
    }
}

proof fn lemma_cookie_errors_of_append(x: Seq<Seq<char>>, y: Seq<Seq<char>>)
    ensures
        cookie_errors_of(x + y) == cookie_errors_of(x) + cookie_errors_of(y),
    decreases y.len(),
{
    if y.len() == 0 {
        assert(x + y =~= x);
        assert(cookie_errors_of(x) + cookie_errors_of(y) =~= cookie_errors_of(x));
    } else {
        lemma_cookie_errors_of_append(x, y.drop_last());
        assert((x + y).drop_last() =~= x + y.drop_last());
        assert((x + y).last() == y.last());
        let attr = text::trim(y.last());
        if attr.len() > 0 {
            match cookie_attr_error(attr) {
                Some(e) => {
                    assert(cookie_errors_of(x) + cookie_errors_of(y.drop_last()).push(e) =~= (
                    cookie_errors_of(x) + cookie_errors_of(y.drop_last())).push(e));
                },
                None => {},
            }
        }
    }
}

/// Attributes joined by `;` are validated one after the other: the errors
/// of `a;b` are those of `a` followed by those of `b`.
pub proof fn law_cookie_attrs_errors_join(a: Seq<char>, b: Seq<char>)
    ensures
        cookie_attrs_errors(a.push(';') + b) == cookie_attrs_errors(a) + cookie_attrs_errors(b),
{
    lemma_split_on_append(a, b, ';');
    lemma_cookie_errors_of_append(text::split_on(a, ';'), text::split_on(b, ';'));
}

fn message(lit: &str) -> (r: String)
    ensures
        r@ == lit@,
{
    String::from_str(lit)
}

/// The error of one non-empty, trimmed cookie attribute, if any.
fn attr_error(attr: &[char]) -> (r: Option<String>)
    ensures
        match r {
            Some(e) => cookie_attr_error(attr@) == Some(e@),
            None => cookie_attr_error(attr@) is None,
        },
{
    let key: Vec<char>;
    let value: Vec<char>;
    if contains_char(attr, '=') {
        let parts = split_chars(attr, '=');
        proof {
            text::lemma_split_on_contains(attr@, '=');
        }
        assert(parts@[0]@ == text::seqs_of(parts@)[0]);
        assert(parts@[1]@ == text::seqs_of(parts@)[1]);
        key = copy_chars(parts[0].as_slice());
        value = copy_chars(parts[1].as_slice());
    } else {
        key = copy_chars(attr);
        value = Vec::new();
    }
    assert(key@ == attr_key_value(attr@).0);
    assert(value@ == attr_key_value(attr@).1);
    let k = to_ascii_lower(key.as_slice());
    if chars_are(k.as_slice(), "samesite") {
        let v = to_ascii_lower(value.as_slice());
        if chars_are(v.as_slice(), "strict") || chars_are(v.as_slice(), "lax") || chars_are(
            v.as_slice(),
            "none",
        ) {
            None
        } else {
            let mut m = message("Invalid SameSite value: ");
            push_chars(&mut m, value.as_slice());
            push_str(&mut m, ". Must be Strict, Lax, or None.");
            Some(m)
        }
    } else if chars_are(k.as_slice(), "secure") {
        if value.len() > 0 {
            Some(message("Secure attribute does not take a value"))
        } else {
            None
        }
    } else if chars_are(k.as_slice(), "httponly") {
        if value.len() > 0 {
            Some(message("HttpOnly attribute does not take a value"))
        } else {
            None
        }
    } else if chars_are(k.as_slice(), "domain") {
        if value.len() == 0 {
            Some(message("Domain attribute must have a value"))
        } else {
            None
        }
    } else if chars_are(k.as_slice(), "path") {
        if value.len() == 0 {
            Some(message("Path attribute must have a value"))
        } else {
            None
        }
    } else if chars_are(k.as_slice(), "max-age") {
        if !is_i64_number(value.as_slice()) {
            Some(message("Max-Age attribute must be a number"))
        } else {
            None
        }
    } else if chars_are(k.as_slice(), "expires") {
        if value.len() == 0 {
            Some(message("Expires attribute must have a value"))
        } else {
            None
        }
    } else if chars_are(k.as_slice(), "partitioned") {
        if value.len() > 0 {
            Some(message("Partitioned attribute does not take a value"))
        } else {
            None
        }
    } else {
        let mut m = message("Invalid cookie attribute: '");
        push_chars(&mut m, k.as_slice());
        push_str(
            &mut m,
            "'.\n  Valid attributes are: SameSite, Secure, HttpOnly, Domain, Path, Max-Age, Expires, Partitioned.",
        );
        Some(m)
    }
}

/// Validates a string with cookie attributes, giving one message for each
/// attribute that is unknown or has a wrong value.
pub fn validate_cookie_attrs(cookie_attrs: &str) -> (errors: Vec<String>)
    ensures
        text::strs_of(errors@) == cookie_attrs_errors(cookie_attrs@),
{
    let chars = chars_of(cookie_attrs);
    let attrs = split_chars(chars.as_slice(), ';');
    let mut errors: Vec<String> = Vec::new();
    let mut i: usize = 0;
    assert(text::seqs_of(attrs@).take(0) =~= Seq::<Seq<char>>::empty());
    while i < attrs.len()
        invariant
            i <= attrs@.len(),
            text::seqs_of(attrs@) == text::split_on(chars@, ';'),
            chars@ == cookie_attrs@,
            text::strs_of(errors@) == cookie_errors_of(text::seqs_of(attrs@).take(i as int)),
        decreases attrs@.len() - i,
    {
        let ghost prev = text::seqs_of(attrs@).take(i as int);
        let ghost before = text::strs_of(errors@);
        let attr = trim_chars(attrs[i].as_slice());
        assert(attrs@[i as int]@ == text::seqs_of(attrs@)[i as int]);
        i = i + 1;
        assert(text::seqs_of(attrs@).take(i as int).drop_last() =~= prev);
        assert(text::seqs_of(attrs@).take(i as int).last() == attrs@[i - 1]@);
        if attr.len() > 0 {
            match attr_error(attr.as_slice()) {
                Some(e) => {
                    let ghost ev = e@;
                    errors.push(e);
                    assert(text::strs_of(errors@) =~= before.push(ev));
                },
                None => {},
            }
        }
    }
    assert(text::seqs_of(attrs@).take(attrs@.len() as int) =~= text::seqs_of(attrs@));
    errors
}

proof fn lemma_trim_unchanged(s: Seq<char>)
    requires
        s.len() > 0,
        !text::is_white_space(s[0]),
        !text::is_white_space(s.last()),
    ensures
        text::trim(s) == s,
{
}

/// A key that is `SameSite` in any letter case holds only letters.
proof fn lemma_samesite_key(key: Seq<char>)
    requires
        text::ascii_lower(key) == "samesite"@,
    ensures
        key.len() == 8,
        forall|j: int| 0 <= j < key.len() ==> key[j] != ';' && key[j] != '=',
        !text::is_white_space(key[0]),
{
    reveal_strlit("samesite");
    assert(key.len() == text::ascii_lower(key).len());
    assert forall|j: int| 0 <= j < key.len() implies key[j] != ';' && key[j] != '=' by {
        assert(text::ascii_lower(key)[j] == text::ascii_lower_char(key[j]));
        assert("samesite"@[j] != ';' && "samesite"@[j] != '=');
    }
    assert(text::ascii_lower(key)[0] == text::ascii_lower_char(key[0]));
    assert("samesite"@[0] == 's');
}

/// The attribute `SameSite=value`, its key in any letter case, gives no
/// error exactly when its value is `Strict`, `Lax` or `None` in any letter
/// case; any other value gives the one SameSite error, naming the value.
pub proof fn law_same_site_values(key: Seq<char>, value: Seq<char>)
    requires
        text::ascii_lower(key) == "samesite"@,
        !value.contains(';'),
        !value.contains('='),
        value.len() > 0 ==> !text::is_white_space(value.last()),
    ensures
        cookie_attrs_errors(key + "="@ + value).len() == 0 <==> (text::ascii_lower(value)
            == "strict"@ || text::ascii_lower(value) == "lax"@ || text::ascii_lower(value)
            == "none"@),
        !(text::ascii_lower(value) == "strict"@ || text::ascii_lower(value) == "lax"@
            || text::ascii_lower(value) == "none"@) ==> cookie_attrs_errors(key + "="@ + value)
            == seq!["Invalid SameSite value: "@ + value + ". Must be Strict, Lax, or None."@],
{
    reveal_strlit("=");
    reveal_strlit("samesite");
    lemma_samesite_key(key);
    let s = key + "="@ + value;
    assert(s =~= key.push('=') + value);
    assert(s[8] == '=');
    assert(!s.contains(';')) by {
        if s.contains(';') {
            let j = choose|j: int| 0 <= j < s.len() && s[j] == ';';
            if j >= 9 {
                assert(value[j - 9] == ';');
            }
        }
    }
    text::lemma_split_on_first(s, ';', s.len() as int);
    assert(s.take(s.len() as int) =~= s);
    let pieces = text::split_on(s, ';');
    assert(pieces =~= seq![s]);
    assert(pieces.drop_last() =~= Seq::<Seq<char>>::empty());
    if value.len() > 0 {
        assert(s.last() == value.last());
    }
    lemma_trim_unchanged(s);
    // Key and value of the attribute.
    text::lemma_split_on_first(key, '=', key.len() as int);
    assert(key.take(key.len() as int) =~= key);
    text::lemma_split_on_first(value, '=', value.len() as int);
    assert(value.take(value.len() as int) =~= value);
    lemma_split_on_append(key, value, '=');
    assert(text::split_on(s, '=') =~= seq![key, value]);
    assert(s.contains('='));
    assert(attr_key_value(s) == (key, value));
    assert(text::ascii_lower(attr_key_value(s).0) == "samesite"@);
    let ok = text::ascii_lower(value) == "strict"@ || text::ascii_lower(value) == "lax"@
        || text::ascii_lower(value) == "none"@;
    let msg = "Invalid SameSite value: "@ + value + ". Must be Strict, Lax, or None."@;
    assert(cookie_attr_error(s) == if ok {
        None::<Seq<char>>
    } else {
        Some(msg)
    });
    assert(pieces.last() == s);
    assert(cookie_errors_of(pieces.drop_last()) =~= Seq::<Seq<char>>::empty());
    assert(text::trim(pieces.last()) == s);
    if ok {
        assert(cookie_errors_of(pieces) =~= Seq::<Seq<char>>::empty());
    } else {
        assert(cookie_errors_of(pieces) =~= seq![msg]);
    }
}

} // verus!
