//! Laws that relate the functions of this library to each other.

use vstd::prelude::*;
use crate::ast::{CallExpr, Module, Stmt};
use crate::folder::is_spliced;
use crate::template::{header_template, occurs_at, placeholder, rendered_header, substituted};

verus! {

/// The call expression reached from `root` by following `path`: each
/// entry picks one of the calls nested directly below the current one.
pub open spec fn descendant(root: CallExpr, path: Seq<int>) -> Option<CallExpr>
    decreases path.len(),
{
    if path.len() == 0 {
        Some(root)
    } else if 0 <= path[0] < root.inner@.len() {
        descendant(root.inner@[path[0]], path.subrange(1, path.len() as int))
    } else {
        None
    }
}

/// `root` has, at the end of `path`, a call of the registration hook.
pub open spec fn hook_at(root: CallExpr, path: Seq<int>) -> bool {
    match descendant(root, path) {
        Some(call) => call.callee.is_refresh_reg(),
        None => false,
    }
}

/// A call of the registration hook counts at whatever depth it is nested.
pub proof fn lemma_hook_at_any_depth_registers(root: CallExpr, path: Seq<int>)
    requires
        hook_at(root, path),
    ensures
        root.registers(),
    decreases path.len(),
{
    if path.len() > 0 {
        let child = root.inner@[path[0]];
        lemma_hook_at_any_depth_registers(child, path.subrange(1, path.len() as int));
        assert(root.inner@[path[0]].registers());
    }
}

/// Nothing but a call of the registration hook makes a call expression
/// register: there is a path from it to such a call.
pub proof fn lemma_registers_only_by_hook(root: CallExpr) -> (path: Seq<int>)
    requires
        root.registers(),
    ensures
        hook_at(root, path),
    decreases root,
{
    if root.callee.is_refresh_reg() {
        Seq::empty()
    } else {
        let i = choose|i: int| 0 <= i < root.inner@.len() && (#[trigger] root.inner@[i]).registers();
        let below = lemma_registers_only_by_hook(root.inner@[i]);
        let path = seq![i] + below;
        assert(path.subrange(1, path.len() as int) =~= below);
        path
    }
}

/// A module is a refresh boundary as soon as one call expression in it,
/// in any statement and at any depth, calls the registration hook.
pub proof fn lemma_boundary_at_any_depth<T>(
    module: Module<T>,
    stmt: int,
    call: int,
    path: Seq<int>,
)
    requires
        0 <= stmt < module.body@.len(),
        0 <= call < module.body@[stmt].calls@.len(),
        hook_at(module.body@[stmt].calls@[call], path),
    ensures
        module.is_refresh_boundary(),
{
    let s: Stmt<T> = module.body@[stmt];
    lemma_hook_at_any_depth_registers(s.calls@[call], path);
    assert(s.registers());
    assert(module.body@[stmt].registers());
}

/// A module is a refresh boundary only if some call expression in it
/// calls the registration hook.
pub proof fn lemma_boundary_only_by_hook<T>(module: Module<T>) -> (at: (int, int, Seq<int>))
    requires
        module.is_refresh_boundary(),
    ensures
        0 <= at.0 < module.body@.len(),
        0 <= at.1 < module.body@[at.0].calls@.len(),
        hook_at(module.body@[at.0].calls@[at.1], at.2),
{
    let stmt = choose|i: int|
        0 <= i < module.body@.len() && (#[trigger] module.body@[i]).registers();
    let s: Stmt<T> = module.body@[stmt];
    let call = choose|j: int| 0 <= j < s.calls@.len() && (#[trigger] s.calls@[j]).registers();
    let path = lemma_registers_only_by_hook(s.calls@[call]);
    (stmt, call, path)
}

/// The body of a spliced module is as long as its three pieces together,
/// and cutting it at the two seams gives the three pieces back.
pub proof fn lemma_splice_round_trip<T>(
    out: Module<T>,
    module: Module<T>,
    header: Seq<Stmt<T>>,
    footer: Seq<Stmt<T>>,
)
    requires
        is_spliced(out, module, header, footer),
    ensures
        out.body@.len() == header.len() + module.body@.len() + footer.len(),
        out.body@.subrange(0, header.len() as int) == header,
        out.body@.subrange(header.len() as int, (header.len() + module.body@.len()) as int)
            == module.body@,
        out.body@.subrange((header.len() + module.body@.len()) as int, out.body@.len() as int)
            == footer,
{
    let h = header.len() as int;
    let b = module.body@.len() as int;
    assert(out.body@.subrange(0, h) =~= header);
    assert(out.body@.subrange(h, h + b) =~= module.body@);
    assert(out.body@.subrange(h + b, out.body@.len() as int) =~= footer);
}

/// `token` occurs nowhere in `text`.
pub open spec fn free_of(text: Seq<char>, token: Seq<char>) -> bool {
    forall|at: int| !occurs_at(text, token, at)
}

/// A text in which the token does not occur is left as it is.
pub proof fn lemma_substituted_without_token(text: Seq<char>, token: Seq<char>, value: Seq<char>)
    requires
        free_of(text, token),
    ensures
        substituted(text, token, value) == text,
    decreases text.len(),
{
    if token.len() == 0 || text.len() < token.len() {
    } else {
        assert(!occurs_at(text, token, 0));
        let rest = text.subrange(1, text.len() as int);
        assert forall|at: int| !occurs_at(rest, token, at) by {
            if occurs_at(rest, token, at) {
                assert(text.subrange(at + 1, at + 1 + token.len()) =~= rest.subrange(
                    at,
                    at + token.len(),
                ));
                assert(occurs_at(text, token, at + 1));
            }
        }
        lemma_substituted_without_token(rest, token, value);
        assert(seq![text[0]] + rest =~= text);
    }
}

/// Where the token stands exactly once in a text, substitution puts the
/// value in its place and leaves what is before and behind it alone:
/// if `before ++ token` holds the token only at its end, and `behind`
/// does not hold it, then `before ++ token ++ behind` becomes
/// `before ++ value ++ behind`.
pub proof fn lemma_substituted_once(
    before: Seq<char>,
    token: Seq<char>,
    behind: Seq<char>,
    value: Seq<char>,
)
    requires
        token.len() > 0,
        forall|at: int| 0 <= at < before.len() ==> !occurs_at(before + token, token, at),
        free_of(behind, token),
    ensures
        substituted(before + token + behind, token, value) == before + value + behind,
    decreases before.len(),
{
    let text = before + token + behind;
    let m = token.len() as int;
    if before.len() == 0 {
        assert(text.subrange(0, m) =~= token);
        assert(text.subrange(m, text.len() as int) =~= behind);
        lemma_substituted_without_token(behind, token, value);
        assert(value + behind =~= before + value + behind);
    } else {
        assert((before + token).subrange(0, m) =~= text.subrange(0, m));
        assert(!occurs_at(before + token, token, 0));
        assert(!occurs_at(text, token, 0));
        let shorter = before.subrange(1, before.len() as int);
        assert(text.subrange(1, text.len() as int) =~= shorter + token + behind);
        assert forall|at: int| 0 <= at < shorter.len() implies !occurs_at(
            shorter + token,
            token,
            at,
        ) by {
            assert((shorter + token).subrange(at, at + m) =~= (before + token).subrange(
                at + 1,
                at + 1 + m,
            ));
            assert(!occurs_at(before + token, token, at + 1));
        }
        lemma_substituted_once(shorter, token, behind, value);
        assert(seq![text[0]] + (shorter + value + behind) =~= before + value + behind);
    }
}

/// The header text before the placeholder.
pub open spec fn header_before() -> Seq<char> {
    "var RefreshRuntime = __rspack_require__('/react-refresh');\nvar prevRefreshReg;\nvar prevRefreshSig;\nprevRefreshReg = globalThis.$RefreshReg$;\nprevRefreshSig = globalThis.$RefreshSig$;\nglobalThis.$RefreshReg$ = (type, id) => {\n  RefreshRuntime.register(type, \""@
}

/// The header text behind the placeholder.
pub open spec fn header_behind() -> Seq<char> {
    "\" + \"_\" + id);\n};\nglobalThis.$RefreshSig$ = RefreshRuntime.createSignatureFunctionForTransform;"@
}

/// The header text is what stands before the placeholder, the placeholder,
/// and what stands behind it.
pub proof fn lemma_header_parts()
    ensures
        header_template() == header_before() + placeholder() + header_behind(),
{
    reveal_strlit("var RefreshRuntime = __rspack_require__('/react-refresh');\nvar prevRefreshReg;\nvar prevRefreshSig;\nprevRefreshReg = globalThis.$RefreshReg$;\nprevRefreshSig = globalThis.$RefreshSig$;\nglobalThis.$RefreshReg$ = (type, id) => {\n  RefreshRuntime.register(type, \"__SOURCE__\" + \"_\" + id);\n};\nglobalThis.$RefreshSig$ = RefreshRuntime.createSignatureFunctionForTransform;");
    reveal_strlit("var RefreshRuntime = __rspack_require__('/react-refresh');\nvar prevRefreshReg;\nvar prevRefreshSig;\nprevRefreshReg = globalThis.$RefreshReg$;\nprevRefreshSig = globalThis.$RefreshSig$;\nglobalThis.$RefreshReg$ = (type, id) => {\n  RefreshRuntime.register(type, \"");
    reveal_strlit("__SOURCE__");
    reveal_strlit("\" + \"_\" + id);\n};\nglobalThis.$RefreshSig$ = RefreshRuntime.createSignatureFunctionForTransform;");
    assert(header_template() =~= header_before() + placeholder() + header_behind());
}

/// In the header text the placeholder stands once: not before the place
/// where it was cut, and not behind it.
pub proof fn lemma_header_holds_placeholder_once()
    ensures
        forall|at: int|
            0 <= at < header_before().len() ==> !occurs_at(
                header_before() + placeholder(),
                placeholder(),
                at,
            ),
        free_of(header_behind(), placeholder()),
{
    reveal_strlit("var RefreshRuntime = __rspack_require__('/react-refresh');\nvar prevRefreshReg;\nvar prevRefreshSig;\nprevRefreshReg = globalThis.$RefreshReg$;\nprevRefreshSig = globalThis.$RefreshSig$;\nglobalThis.$RefreshReg$ = (type, id) => {\n  RefreshRuntime.register(type, \"");
    reveal_strlit("__SOURCE__");
    reveal_strlit("\" + \"_\" + id);\n};\nglobalThis.$RefreshSig$ = RefreshRuntime.createSignatureFunctionForTransform;");
    let token = placeholder();
    let text = header_before() + token;
    assert forall|at: int| 0 <= at < header_before().len() implies !occurs_at(text, token, at) by {
        if occurs_at(text, token, at) {
            let window = text.subrange(at, at + 10);
            assert(window[0] == text[at]);
            assert(window[2] == text[at + 2]);
            assert(text[at] == '_' && text[at + 2] == 'S');
            assert(false);
        }
    }
    let behind = header_behind();
    assert forall|at: int| !occurs_at(behind, token, at) by {
        if occurs_at(behind, token, at) {
            let window = behind.subrange(at, at + 10);
            assert(window[0] == behind[at]);
            assert(window[2] == behind[at + 2]);
            assert(behind[at] == '_' && behind[at + 2] == 'S');
            assert(false);
        }
    }
}

/// The rendered header is the header text with the module's identifier
/// exactly in the place of the placeholder, whatever the identifier holds.
pub proof fn lemma_rendered_header(id: Seq<char>)
    ensures
        rendered_header(id) == header_before() + id + header_behind(),
{
    reveal_strlit("__SOURCE__");
    lemma_header_parts();
    lemma_header_holds_placeholder_once();
    lemma_substituted_once(header_before(), placeholder(), header_behind(), id);
}

/// The rendered header holds the placeholder nowhere, unless the module's
/// identifier itself holds it.
pub proof fn lemma_rendered_header_free_of_placeholder(id: Seq<char>)
    requires
        free_of(id, placeholder()),
    ensures
        free_of(rendered_header(id), placeholder()),
{
    lemma_rendered_header(id);
    lemma_header_holds_placeholder_once();
    reveal_strlit("var RefreshRuntime = __rspack_require__('/react-refresh');\nvar prevRefreshReg;\nvar prevRefreshSig;\nprevRefreshReg = globalThis.$RefreshReg$;\nprevRefreshSig = globalThis.$RefreshSig$;\nglobalThis.$RefreshReg$ = (type, id) => {\n  RefreshRuntime.register(type, \"");
    reveal_strlit("__SOURCE__");
    reveal_strlit("\" + \"_\" + id);\n};\nglobalThis.$RefreshSig$ = RefreshRuntime.createSignatureFunctionForTransform;");
    let token = placeholder();
    let before = header_before();
    let behind = header_behind();
    let text = before + id + behind;
    let b = before.len() as int;
    let n = id.len() as int;
    assert(before[b - 1] == '"');
    assert(behind[0] == '"');
    assert forall|at: int| !occurs_at(text, token, at) by {
        if occurs_at(text, token, at) {
            let window = text.subrange(at, at + 10);
            assert(forall|j: int| 0 <= j < 10 ==> window[j] == text[at + j]);
            assert(forall|j: int| 0 <= j < 10 ==> token[j] != '"');
            if at + 10 <= b {
                assert((before + token).subrange(at, at + 10) =~= window);
                assert(occurs_at(before + token, token, at));
            } else if at < b {
                assert(window[b - 1 - at] == text[b - 1]);
                assert(text[b - 1] == '"');
            } else if at + 10 <= b + n {
                assert(id.subrange(at - b, at - b + 10) =~= window);
                assert(occurs_at(id, token, at - b));
            } else if at < b + n {
                assert(window[b + n - at] == text[b + n]);
                assert(text[b + n] == '"');
            } else {
                assert(behind.subrange(at - b - n, at - b - n + 10) =~= window);
                assert(occurs_at(behind, token, at - b - n));
            }
            assert(false);
        }
    }
}

} // verus!
