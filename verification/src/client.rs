//! The path under which a client calls a method. A server routes method `M`
//! under `/{M::ID}/…`, so a client calls `/{ID}/call`: the ID names the
//! service, and `call` the one method that it serves.

use axum::http::uri::InvalidUri;
use axum::http::uri::PathAndQuery;
use vstd::prelude::*;

use crate::Method;

verus! {

/// `http::uri::PathAndQuery`, the path of a request URI.
#[verifier::external_type_specification]
#[verifier::external_body]
pub struct ExPathAndQuery(PathAndQuery);

/// `http::uri::InvalidUri`, the error of a text that is no URI (part).
#[verifier::external_type_specification]
#[verifier::external_body]
pub struct ExInvalidUri(InvalidUri);

/// A character that `http` keeps as it is in the path of a URI.
pub open spec fn is_path_char(c: char) -> bool {
    ||| c == '!'
    ||| '$' <= c <= ';'
    ||| c == '='
    ||| '@' <= c <= '_'
    ||| 'a' <= c <= 'z'
    ||| c == '|'
    ||| c == '~'
    ||| c == '"'
    ||| c == '{'
    ||| c == '}'
}

/// A character that `http` keeps as it is in the query of a URI.
pub open spec fn is_query_char(c: char) -> bool {
    ||| c == '!'
    ||| '$' <= c <= ';'
    ||| c == '='
    ||| '?' <= c <= '~'
}

/// A character outside ASCII, which `http` takes as part of UTF-8 text.
pub open spec fn is_high_char(c: char) -> bool {
    '\u{80}' <= c
}

/// The number of bytes that `c` takes in UTF-8.
pub open spec fn utf8_char_len(c: char) -> nat {
    if '\u{80}' > c {
        1
    } else if '\u{800}' > c {
        2
    } else if '\u{10000}' > c {
        3
    } else {
        4
    }
}

/// The number of bytes that `s` takes in UTF-8.
pub open spec fn utf8_len(s: Seq<char>) -> nat
    decreases s.len(),
{
    if s.len() == 0 {
        0
    } else {
        utf8_len(s.drop_last()) + utf8_char_len(s.last())
    }
}

/// Whether `http` lets the character at `i` of `s` stand: in the path (up
/// to the first `?` or `#`) a path character, in the query (after the first
/// `?`, up to the first `#`) a query character, in the fragment anything;
/// `?` and `#` open the parts that follow them, and non-ASCII is text.
pub open spec fn is_allowed_at(s: Seq<char>, i: int) -> bool {
    let before = s.subrange(0, i);
    if before.contains('#') {
        true
    } else if before.contains('?') {
        is_query_char(s[i]) || s[i] == '#' || is_high_char(s[i])
    } else {
        is_path_char(s[i]) || s[i] == '?' || s[i] == '#' || is_high_char(s[i])
    }
}

/// Whether `http` parses the text `s` as a path-and-query: `*`, or a text
/// of 1 to 65534 bytes that starts with `/`, `?` or `#` and whose every
/// character is allowed where it stands.
pub open spec fn is_path_and_query(s: Seq<char>) -> bool {
    &&& 0 < utf8_len(s) <= 65534
    &&& (s == seq!['*'] || {
        &&& (s[0] == '/' || s[0] == '?' || s[0] == '#')
        &&& forall|i: int| 0 <= i < s.len() ==> #[trigger] is_allowed_at(s, i)
    })
}

/// What `http` parses from the text `text`, where it parses it: the parse
/// depends on the text alone.
pub uninterp spec fn parsed_path(text: Seq<char>) -> PathAndQuery;

/// `<http::uri::PathAndQuery as TryFrom<String>>::try_from`: parses `text`,
/// and succeeds exactly where [`is_path_and_query`] holds of it; what it
/// parses is named [`parsed_path`], and is opaque here.
#[verifier::external_body]
fn parse_path(text: String) -> (parsed: Result<PathAndQuery, InvalidUri>)
    ensures
        parsed is Ok <==> is_path_and_query(text@),
        parsed matches Ok(path) ==> path == parsed_path(text@),
{
    PathAndQuery::try_from(text)
}

/// The text of the path of the method with ID `id`: `/{id}/call`.
pub open spec fn method_path_text(id: Seq<char>) -> Seq<char> {
    seq!['/'] + id + seq!['/', 'c', 'a', 'l', 'l']
}

/// The path text is `/`, then the ID whole and unchanged, then `/call`.
pub proof fn lemma_method_path_text_holds_the_id(id: Seq<char>)
    ensures
        method_path_text(id).len() == id.len() + 6,
        method_path_text(id)[0] == '/',
        method_path_text(id).subrange(1, id.len() + 1 as int) == id,
        method_path_text(id).subrange(id.len() + 1 as int, id.len() + 6 as int) == seq!['/', 'c', 'a', 'l', 'l'],
{
    let text = method_path_text(id);
    assert(text.subrange(1, id.len() + 1 as int) =~= id);
    assert(text.subrange(id.len() + 1 as int, id.len() + 6 as int) =~= seq!['/', 'c', 'a', 'l', 'l']);
}

/// Whether `http` accepts `s` as a static path-and-query (as
/// `PathAndQuery::from_static` does): `*`, or a text of at most 65534
/// characters that starts with `/` or `?`, whose characters up to the first
/// `?` are path characters and after it query characters (so no fragment
/// and nothing outside ASCII).
pub open spec fn is_static_path(s: Seq<char>) -> bool {
    &&& 0 < s.len() <= 65534
    &&& (s == seq!['*'] || {
        &&& (s[0] == '/' || s[0] == '?')
        &&& forall|i: int|
            0 <= i < s.len() ==> if s.subrange(0, i).contains('?') {
                is_query_char(#[trigger] s[i])
            } else {
                is_path_char(s[i]) || s[i] == '?'
            }
    })
}

/// Whether `id` can stand inside a path: it holds no `#`, and each of its
/// characters is allowed where it stands, taken as a text of its own.
pub open spec fn is_route_id(id: Seq<char>) -> bool {
    &&& forall|i: int| 0 <= i < id.len() ==> #[trigger] id[i] != '#'
    &&& forall|i: int| 0 <= i < id.len() ==> #[trigger] is_allowed_at(id, i)
}

/// UTF-8 lengths add up over a concatenation.
proof fn lemma_utf8_len_concat(a: Seq<char>, b: Seq<char>)
    ensures
        utf8_len(a + b) == utf8_len(a) + utf8_len(b),
    decreases b.len(),
{
    if b.len() == 0 {
        assert(a + b =~= a);
    } else {
        lemma_utf8_len_concat(a, b.drop_last());
        assert((a + b).drop_last() =~= a + b.drop_last());
        assert((a + b).last() == b.last());
    }
}

/// A text of ASCII characters takes one byte per character.
proof fn lemma_ascii_utf8_len(s: Seq<char>)
    requires
        forall|i: int| 0 <= i < s.len() ==> !is_high_char(#[trigger] s[i]),
    ensures
        utf8_len(s) == s.len(),
    decreases s.len(),
{
    if s.len() > 0 {
        lemma_ascii_utf8_len(s.drop_last());
        assert(!is_high_char(s[s.len() - 1]));
    }
}

/// Behind a leading `/`, a text holds a character other than `/` exactly
/// where it held it before.
proof fn lemma_contains_after_slash(s: Seq<char>, c: char)
    requires
        c != '/',
    ensures
        (seq!['/'] + s).contains(c) == s.contains(c),
{
    let t = seq!['/'] + s;
    if t.contains(c) {
        let j = choose|j: int| 0 <= j < t.len() && t[j] == c;
        assert(j != 0);
        assert(s[j - 1] == c);
    }
    if s.contains(c) {
        let k = choose|k: int| 0 <= k < s.len() && s[k] == c;
        assert(t[k + 1] == c);
    }
}

/// Every ID that can stand inside a path, with room for `/` and `/call`,
/// gives a path that `http` parses: such a method can be called.
pub proof fn lemma_route_ids_are_callable(id: Seq<char>)
    requires
        is_route_id(id),
        utf8_len(id) + 6 <= 65534,
    ensures
        is_path_and_query(method_path_text(id)),
{
    let slash = seq!['/'];
    let call = seq!['/', 'c', 'a', 'l', 'l'];
    let text = method_path_text(id);
    assert(utf8_len(slash) == 1) by {
        reveal_with_fuel(utf8_len, 2);
    }
    assert(utf8_len(call) == 5) by {
        lemma_ascii_utf8_len(call);
    }
    lemma_utf8_len_concat(slash, id);
    lemma_utf8_len_concat(slash + id, call);
    assert(text[0] == '/');
    assert(text != seq!['*']) by {
        assert(text.len() != 1);
    }
    assert forall|i: int| 0 <= i < text.len() implies #[trigger] is_allowed_at(text, i) by {
        let before = text.subrange(0, i);
        if i == 0 {
            assert(!before.contains('#') && !before.contains('?'));
        } else if i <= id.len() {
            let inner = id.subrange(0, i - 1);
            assert(before =~= slash + inner);
            assert(text[i] == id[i - 1]);
            assert(is_allowed_at(id, i - 1));
            lemma_contains_after_slash(inner, '#');
            lemma_contains_after_slash(inner, '?');
        } else {
            assert(text[i] == call[i - id.len() - 1]);
        }
    }
}

/// Every ID that `http` accepts as a static path (the ID as a path), with
/// room for `/` and `/call`, gives a path that `http` parses.
pub proof fn lemma_static_ids_are_callable(id: Seq<char>)
    requires
        is_static_path(id),
        id.len() + 6 <= 65534,
    ensures
        is_path_and_query(method_path_text(id)),
{
    assert forall|i: int| 0 <= i < id.len() implies !is_high_char(#[trigger] id[i]) && id[i]
        != '#' by {
        if id != seq!['*'] {
            if id.subrange(0, i).contains('?') {
                assert(is_query_char(id[i]));
            } else {
                assert(is_path_char(id[i]) || id[i] == '?');
            }
        }
    }
    assert forall|i: int| 0 <= i < id.len() implies #[trigger] is_allowed_at(id, i) by {
        let before = id.subrange(0, i);
        assert(!before.contains('#')) by {
            if before.contains('#') {
                let j = choose|j: int| 0 <= j < before.len() && before[j] == '#';
                assert(id[j] == '#');
                assert(id[j] != '#');
            }
        }
        if id != seq!['*'] {
            if before.contains('?') {
                assert(is_query_char(id[i]));
            } else {
                assert(is_path_char(id[i]) || id[i] == '?');
            }
        }
    }
    lemma_ascii_utf8_len(id);
    lemma_route_ids_are_callable(id);
}

/// The text `/{id}/call`.
pub fn method_path_string(id: &str) -> (text: String)
    ensures
        text@ == method_path_text(id@),
        text@.len() == id@.len() + 6,
        text@[0] == '/',
        text@.subrange(1, id@.len() + 1 as int) == id@,
        text@.subrange(id@.len() + 1 as int, id@.len() + 6 as int) == seq!['/', 'c', 'a', 'l', 'l'],
{
    let text = String::from_str("/").concat(id).concat("/call");
    proof {
        reveal_strlit("/");
        reveal_strlit("/call");
        assert(text@ =~= method_path_text(id@));
        lemma_method_path_text_holds_the_id(id@);
    }
    text
}

/// The path under which clients call method `M`, where `http` can parse
/// it; `None` where it cannot. An ID that is itself a static path, with room
/// for `/` and `/call`, always gets its path.
pub fn try_method_path<M: Method>() -> (path: Option<PathAndQuery>)
    ensures
        path is Some <==> is_path_and_query(method_path_text(M::ID@)),
        path matches Some(p) ==> p == parsed_path(method_path_text(M::ID@)),
        is_static_path(M::ID@) && M::ID@.len() + 6 <= 65534 ==> path is Some,
        is_route_id(M::ID@) && utf8_len(M::ID@) + 6 <= 65534 ==> path is Some,
{
    proof {
        if is_static_path(M::ID@) && M::ID@.len() + 6 <= 65534 {
            lemma_static_ids_are_callable(M::ID@);
        }
        if is_route_id(M::ID@) && utf8_len(M::ID@) + 6 <= 65534 {
            lemma_route_ids_are_callable(M::ID@);
        }
    }
    match parse_path(method_path_string(M::ID)) {
        Ok(path) => Some(path),
        Err(_) => None,
    }
}

/// The path under which clients call method `M`: `/{ID}/call`, parsed.
pub fn method_path<M: Method>() -> (path: PathAndQuery)
    requires
        is_path_and_query(method_path_text(M::ID@)),
    ensures
        path == parsed_path(method_path_text(M::ID@)),
{
    try_method_path::<M>().unwrap()
}

} // verus!
