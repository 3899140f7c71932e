//! The two fixed texts that are placed around a refresh boundary, and the
//! substitution that puts a module's identifier into the first of them.
//!
//! The texts are part of the protocol with the refresh runtime: the names
//! they read, write and call are reproduced letter for letter.

use vstd::prelude::*;
use vstd::string::StringExecFns;
use vstd::string::StrSliceExecFns;

verus! {

/// The token in the header text that stands for the module's identifier.
pub open spec fn placeholder() -> Seq<char> {
    "__SOURCE__"@
}

/// The header text, with the placeholder in it.
pub open spec fn header_template() -> Seq<char> {
    "var RefreshRuntime = __rspack_require__('/react-refresh');\nvar prevRefreshReg;\nvar prevRefreshSig;\nprevRefreshReg = globalThis.$RefreshReg$;\nprevRefreshSig = globalThis.$RefreshSig$;\nglobalThis.$RefreshReg$ = (type, id) => {\n  RefreshRuntime.register(type, \"__SOURCE__\" + \"_\" + id);\n};\nglobalThis.$RefreshSig$ = RefreshRuntime.createSignatureFunctionForTransform;"@
}

/// The footer text. It holds no placeholder.
pub open spec fn footer_template() -> Seq<char> {
    "var RefreshRuntime = __rspack_require__('/react-refresh');\nglobalThis.$RefreshReg$ = prevRefreshReg;\nglobalThis.$RefreshSig$ = prevRefreshSig;\nmodule.hot.accept();\nRefreshRuntime.queueUpdate();\n"@
}

/// `token` stands in `text` at position `at`.
pub open spec fn occurs_at(text: Seq<char>, token: Seq<char>, at: int) -> bool {
    0 <= at && at + token.len() <= text.len() && text.subrange(at, at + token.len()) == token
}

/// `text` with every occurrence of `token` replaced by `value`. Occurrences
/// are found from left to right and do not overlap; what was put in is not
/// searched again. An empty token occurs nowhere.
pub open spec fn substituted(text: Seq<char>, token: Seq<char>, value: Seq<char>) -> Seq<char>
    decreases text.len(),
{
    if token.len() == 0 || text.len() < token.len() {
        text
    } else if occurs_at(text, token, 0) {
        value + substituted(text.subrange(token.len() as int, text.len() as int), token, value)
    } else {
        seq![text[0]] + substituted(text.subrange(1, text.len() as int), token, value)
    }
}

/// The header text for the module with identifier `id`.
pub open spec fn rendered_header(id: Seq<char>) -> Seq<char> {
    substituted(header_template(), placeholder(), id)
}

/// The header text, with the placeholder in it.
pub fn hmr_header() -> (text: &'static str)
    ensures
        text@ == header_template(),
{
    "var RefreshRuntime = __rspack_require__('/react-refresh');\nvar prevRefreshReg;\nvar prevRefreshSig;\nprevRefreshReg = globalThis.$RefreshReg$;\nprevRefreshSig = globalThis.$RefreshSig$;\nglobalThis.$RefreshReg$ = (type, id) => {\n  RefreshRuntime.register(type, \"__SOURCE__\" + \"_\" + id);\n};\nglobalThis.$RefreshSig$ = RefreshRuntime.createSignatureFunctionForTransform;"
}

/// The footer text.
pub fn hmr_footer() -> (text: &'static str)
    ensures
        text@ == footer_template(),
{
    "var RefreshRuntime = __rspack_require__('/react-refresh');\nglobalThis.$RefreshReg$ = prevRefreshReg;\nglobalThis.$RefreshSig$ = prevRefreshSig;\nmodule.hot.accept();\nRefreshRuntime.queueUpdate();\n"
}

/// Whether `token` stands in `text` at character position `at`.
pub fn matches_at(text: &str, token: &str, at: usize) -> (found: bool)
    ensures
        found == occurs_at(text@, token@, at as int),
{
    let n: usize = text.unicode_len();
    let m: usize = token.unicode_len();
    if at > n || m > n - at {
        return false;
    }
    let mut k: usize = 0;
    while k < m
        invariant
            k <= m,
            n == text@.len(),
            m == token@.len(),
            at + m <= n,
            forall|j: int| 0 <= j < k ==> text@[at + j] == token@[j],
        decreases m - k,
    {
        if text.get_char(at + k) != token.get_char(k) {
            proof {
                assert(text@.subrange(at as int, at + m)[k as int] == text@[at + k]);
            }
            return false;
        }
        k += 1;
    }
    proof {
        assert(text@.subrange(at as int, at + m) =~= token@);
    }
    true
}

/// Replaces every occurrence of `token` in `text` by `value`.
pub fn substitute(text: &str, token: &str, value: &str) -> (out: String)
    ensures
        out@ == substituted(text@, token@, value@),
{
    let n: usize = text.unicode_len();
    let m: usize = token.unicode_len();
    if m == 0 {
        return String::from_str(text);
    }
    let mut out = String::new();
    let mut i: usize = 0;
    proof {
        assert(text@.subrange(0, n as int) =~= text@);
    }
    while i < n
        invariant
            i <= n,
            m > 0,
            n == text@.len(),
            m == token@.len(),
            out@ + substituted(text@.subrange(i as int, n as int), token@, value@) == substituted(
                text@,
                token@,
                value@,
            ),
        decreases n - i,
    {
        let ghost rest = text@.subrange(i as int, n as int);
        if n - i < m {
            out.append(text.substring_char(i, n));
            proof {
                assert(substituted(rest, token@, value@) == rest);
                assert(text@.subrange(n as int, n as int).len() == 0);
                assert(substituted(text@.subrange(n as int, n as int), token@, value@)
                    =~= Seq::<char>::empty());
                assert(out@ + Seq::<char>::empty() =~= out@);
            }
            i = n;
        } else if matches_at(text, token, i) {
            proof {
                assert(rest.subrange(0, m as int) =~= text@.subrange(i as int, i + m));
                assert(occurs_at(rest, token@, 0));
                assert(rest.subrange(m as int, rest.len() as int) =~= text@.subrange(
                    i + m,
                    n as int,
                ));
                assert((out@ + value@) + substituted(
                    text@.subrange(i + m, n as int),
                    token@,
                    value@,
                ) =~= out@ + (value@ + substituted(
                    text@.subrange(i + m, n as int),
                    token@,
                    value@,
                )));
            }
            out.append(value);
            i += m;
        } else {
            proof {
                assert(rest.subrange(0, m as int) =~= text@.subrange(i as int, i + m));
                assert(!occurs_at(rest, token@, 0));
                assert(rest.subrange(1, rest.len() as int) =~= text@.subrange(i + 1, n as int));
                assert(seq![rest[0]] =~= text@.subrange(i as int, i + 1));
                assert((out@ + text@.subrange(i as int, i + 1)) + substituted(
                    text@.subrange(i + 1, n as int),
                    token@,
                    value@,
                ) =~= out@ + (seq![rest[0]] + substituted(
                    text@.subrange(i + 1, n as int),
                    token@,
                    value@,
                )));
            }
            out.append(text.substring_char(i, i + 1));
            i += 1;
        }
    }
    proof {
        assert(text@.subrange(n as int, n as int).len() == 0);
        assert(out@ + text@.subrange(n as int, n as int) =~= out@);
    }
    out
}

/// Renders the header text for the module with identifier `id`.
pub fn render_header(id: &str) -> (text: String)
    ensures
        text@ == rendered_header(id@),
{
    substitute(hmr_header(), "__SOURCE__", id)
}

/// Renders the footer text, which is the same for every module.
pub fn render_footer() -> (text: String)
    ensures
        text@ == footer_template(),
{
    String::from_str(hmr_footer())
}

} // verus!
