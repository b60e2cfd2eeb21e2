//! Unit names and their bus object paths.
//!
//! A transient unit needs a name ending in `.service`; a caller that gives
//! none gets one generated from the bus connection's own identifier, or
//! from a fresh random identifier on a connection that has none.  The
//! unit's object path is the fixed prefix followed by the name with every
//! byte outside `[0-9A-Za-z]` replaced by `_` and two lowercase hex
//! digits.  This escaping is distinct from the backslash escaping of mount
//! paths.

use crate::text::str_ends_with;
use vstd::prelude::*;
use vstd::string::StringSliceAdditionalSpecFns;

verus! {

/// Whether a byte stays unescaped in an object path.
pub open spec fn is_alnum_byte(b: u8) -> bool {
    ||| 0x30 <= b <= 0x39
    ||| 0x41 <= b <= 0x5a
    ||| 0x61 <= b <= 0x7a
}

/// The lowercase hexadecimal digit of a value below 16.
pub open spec fn hex_lower(n: u8) -> char
    recommends
        n < 16,
{
    if n < 10 {
        ((0x30 + n) as u8) as char
    } else {
        ((0x57 + n) as u8) as char
    }
}

/// The object-path escaping of one byte of a unit name.
pub open spec fn escape_byte(b: u8) -> Seq<char> {
    if is_alnum_byte(b) {
        seq![b as char]
    } else {
        seq!['_', hex_lower(b / 16), hex_lower(b % 16)]
    }
}

/// The object-path escaping of a whole unit name, byte by byte.
pub open spec fn escape_bytes(bs: Seq<u8>) -> Seq<char>
    decreases bs.len(),
{
    if bs.len() == 0 {
        Seq::empty()
    } else {
        escape_byte(bs[0]) + escape_bytes(bs.drop_first())
    }
}

proof fn lemma_escape_bytes_append(a: Seq<u8>, b: Seq<u8>)
    ensures
        escape_bytes(a + b) == escape_bytes(a) + escape_bytes(b),
    decreases a.len(),
{
    if a.len() == 0 {
        assert(a + b =~= b);
        assert(escape_bytes(a) + escape_bytes(b) =~= escape_bytes(b));
    } else {
        assert((a + b).drop_first() =~= a.drop_first() + b);
        lemma_escape_bytes_append(a.drop_first(), b);
        assert(escape_bytes(a + b) =~= escape_bytes(a) + escape_bytes(b));
    }
}

/// The object path of a unit with the given name bytes.
pub open spec fn unit_object_path(name_bytes: Seq<u8>) -> Seq<char> {
    "/org/freedesktop/systemd1/unit/"@ + escape_bytes(name_bytes)
}

/// Whether a character may appear in the escaped portion of an object
/// path: a digit, a letter, or the underscore.
pub open spec fn is_path_word_char(c: char) -> bool {
    ||| 0x30 <= c as u32 <= 0x39
    ||| 0x41 <= c as u32 <= 0x5a
    ||| 0x61 <= c as u32 <= 0x7a
    ||| c == '_'
}

/// Every character of an escaped unit name is a digit, a letter or an
/// underscore, whatever bytes the name held.
pub proof fn lemma_escaped_name_chars(bs: Seq<u8>)
    ensures
        forall|i: int|
            0 <= i < escape_bytes(bs).len() ==> is_path_word_char(#[trigger] escape_bytes(bs)[i]),
    decreases bs.len(),
{
    if bs.len() > 0 {
        lemma_escaped_name_chars(bs.drop_first());
        let b = bs[0];
        let eb = escape_byte(b);
        let rest = escape_bytes(bs.drop_first());
        assert(escape_bytes(bs) == eb + rest);
        assert forall|i: int|
            0 <= i < escape_bytes(bs).len() implies is_path_word_char(
            #[trigger] escape_bytes(bs)[i],
        ) by {
            if i < eb.len() {
                assert(escape_bytes(bs)[i] == eb[i]);
                if is_alnum_byte(b) {
                    assert((b as char) as u32 == b);
                }
            } else {
                assert(escape_bytes(bs)[i] == rest[i - eb.len()]);
                assert(is_path_word_char(rest[i - eb.len()]));
            }
        }
    }
}

fn hex_digit(n: u8) -> (r: char)
    requires
        n < 16,
    ensures
        r == hex_lower(n),
{
    if n < 10 {
        (0x30 + n) as char
    } else {
        (0x57 + n) as char
    }
}

/// Render the object-path escaping of one byte of a unit name.
pub fn escape_byte_for_object_path(b: u8) -> (r: String)
    ensures
        r@ == escape_byte(b),
{
    let mut out = String::new();
    if (b >= 0x30 && b <= 0x39) || (b >= 0x41 && b <= 0x5a) || (b >= 0x61 && b <= 0x7a) {
        out.push(b as char);
        proof {
            assert(out@ =~= escape_byte(b));
        }
    } else {
        out.push('_');
        out.push(hex_digit(b / 16));
        out.push(hex_digit(b % 16));
        proof {
            assert(out@ =~= escape_byte(b));
        }
    }
    out
}

/// The bus object path of the unit with the given name.  The escaping
/// leaves no byte that could make the path invalid, so this cannot fail.
pub fn object_path_from_unit_name(s: &str) -> (r: String)
    ensures
        r@ == unit_object_path(s.spec_bytes()),
{
    let mut out = String::from_str("/org/freedesktop/systemd1/unit/");
    let bs = s.as_bytes_vec();
    let n = bs.len();
    for i in 0..n
        invariant
            n == bs@.len(),
            bs@ == s.spec_bytes(),
            out@ == "/org/freedesktop/systemd1/unit/"@ + escape_bytes(bs@.take(i as int)),
    {
        let piece = escape_byte_for_object_path(bs[i]);
        out.append(piece.as_str());
        proof {
            assert(bs@.take(i + 1) =~= bs@.take(i as int) + seq![bs@[i as int]]);
            lemma_escape_bytes_append(bs@.take(i as int), seq![bs@[i as int]]);
            assert(seq![bs@[i as int]].drop_first() =~= Seq::<u8>::empty());
            assert(escape_bytes(Seq::<u8>::empty()) == Seq::<char>::empty());
            assert(escape_bytes(seq![bs@[i as int]]) =~= escape_byte(bs@[i as int]));
            assert(out@ =~= "/org/freedesktop/systemd1/unit/"@ + escape_bytes(bs@.take(i + 1)));
        }
    }
    proof {
        assert(bs@.take(n as int) =~= bs@);
    }
    out
}

/// Relies on `uuid::Uuid::new_v4` and its simple formatter: a freshly
/// drawn random 128-bit identifier, rendered as exactly 32 lowercase
/// hexadecimal characters.  The identifier differs from call to call;
/// only its shape is stated.
#[verifier::external_body]
fn fresh_random_id() -> (r: String)
    ensures
        r@.len() == 32,
{
    uuid::Uuid::new_v4().simple().to_string()
}

/// The unique-name remainder used in a generated unit name: the bus
/// identifier with its `:1.` or `:` prefix stripped.
pub open spec fn strip_unique_prefix(u: Seq<char>) -> Seq<char> {
    if u.len() >= 3 && u.subrange(0, 3) == ":1."@ {
        u.skip(3)
    } else {
        u.skip(1)
    }
}

/// Generate a unit name from the bus connection's own identifier, or from
/// a fresh random identifier when the connection has none.  The result is
/// unique under normal operation but not collision-proof; a collision
/// surfaces as a start failure, never as a hang.
pub fn default_unit_name(unique: Option<&str>) -> (r: String)
    requires
        unique matches Some(u) ==> u@.len() >= 1 && u@[0] == ':',
    ensures
        match unique {
            Some(u) => r@ == "run-u"@ + strip_unique_prefix(u@) + ".service"@,
            None => exists|id: Seq<char>|
                id.len() == 32 && r@ == "run-r"@ + id + ".service"@,
        },
{
    proof {
        reveal_strlit("run-u");
        reveal_strlit("run-r");
        reveal_strlit(":1.");
    }
    let mut out: String;
    match unique {
        Some(u) => {
            out = String::from_str("run-u");
            let n = u.unicode_len();
            let has_colon_one = n >= 3 && u.get_char(0) == ':' && u.get_char(1) == '1'
                && u.get_char(2) == '.';
            proof {
                if n >= 3 {
                    assert(u@.subrange(0, 3)[0] == u@[0] && u@.subrange(0, 3)[1] == u@[1]
                        && u@.subrange(0, 3)[2] == u@[2]);
                    if u@[0] == ':' && u@[1] == '1' && u@[2] == '.' {
                        assert(u@.subrange(0, 3) =~= ":1."@);
                    }
                }
            }
            let rest = if has_colon_one {
                u.substring_char(3, n)
            } else {
                u.substring_char(1, n)
            };
            proof {
                if has_colon_one {
                    assert(rest@ =~= u@.skip(3));
                } else {
                    assert(rest@ =~= u@.skip(1));
                }
            }
            out.append(rest);
            out.append(".service");
            proof {
                assert(out@ =~= "run-u"@ + strip_unique_prefix(u@) + ".service"@);
            }
        }
        None => {
            out = String::from_str("run-r");
            let id = fresh_random_id();
            let ghost id_view = id@;
            out.append(id.as_str());
            out.append(".service");
            proof {
                assert(out@ =~= "run-r"@ + id_view + ".service"@);
            }
        }
    }
    out
}

/// The name with the required `.service` suffix appended when missing.
pub open spec fn with_service_suffix(n: Seq<char>) -> Seq<char> {
    if n.len() >= ".service"@.len() && n.skip(n.len() - ".service"@.len() as int) == ".service"@ {
        n
    } else {
        n + ".service"@
    }
}

/// Append the `.service` suffix to a name that lacks it.
pub fn ensure_service_suffix(name: &str) -> (r: String)
    ensures
        r@ == with_service_suffix(name@),
{
    let mut out = name.to_owned();
    if !str_ends_with(name, ".service") {
        out.append(".service");
    }
    out
}

} // verus!
