//! Splicing: the header and footer fragments go around the body of a
//! refresh boundary; any other module passes through untouched.

use vstd::prelude::*;
use crate::ast::{Module, ModuleType, Program, Stmt};
use crate::template::{footer_template, render_footer, render_header, rendered_header};
use crate::visitor::is_refresh_boundary;

verus! {

/// Puts the refresh glue around the modules that are refresh boundaries.
/// `id` identifies the module to the refresh runtime.
#[derive(Clone, Debug, PartialEq, Eq)]
pub struct ReactHmrFolder {
    pub id: String,
}

/// Why a boundary module could not be given its glue. Each of these is a
/// defect of the fixed texts or of the parser, never of the module.
#[derive(Clone, Copy, PartialEq, Eq, Structural, Debug)]
pub enum FoldError {
    /// The parser rejected the header text.
    HeaderParse,
    /// The header text did not parse to a flat list of statements.
    HeaderShape,
    /// The parser rejected the footer text.
    FooterParse,
    /// The footer text did not parse to a flat list of statements.
    FooterShape,
}

/// `out` is `module` with `header` in front of its body and `footer`
/// behind it, and with everything else as `module` has it.
pub open spec fn is_spliced<T>(
    out: Module<T>,
    module: Module<T>,
    header: Seq<Stmt<T>>,
    footer: Seq<Stmt<T>>,
) -> bool {
    &&& out.body@ == header + module.body@ + footer
    &&& out.span == module.span
    &&& out.shebang == module.shebang
}

/// What is wrong with a parsed header, if anything.
pub open spec fn header_error<T, E>(header: Result<Program<T>, E>) -> Option<FoldError> {
    match header {
        Err(_) => Some(FoldError::HeaderParse),
        Ok(Program::Script) => Some(FoldError::HeaderShape),
        Ok(Program::Module(_)) => None,
    }
}

/// What is wrong with a parsed footer, if anything.
pub open spec fn footer_error<T, E>(footer: Result<Program<T>, E>) -> Option<FoldError> {
    match footer {
        Err(_) => Some(FoldError::FooterParse),
        Ok(Program::Script) => Some(FoldError::FooterShape),
        Ok(Program::Module(_)) => None,
    }
}

/// The statements of a parsed fragment; none where it is no module.
pub open spec fn fragment<T, E>(parsed: Result<Program<T>, E>) -> Seq<Stmt<T>> {
    match parsed {
        Ok(Program::Module(m)) => m.body@,
        _ => Seq::empty(),
    }
}

/// `out` is what splicing the two parsed fragments around `module` gives:
/// the first defect found, the header's before the footer's, or else the
/// spliced module.
pub open spec fn is_folded<T, E>(
    out: Result<Module<T>, FoldError>,
    module: Module<T>,
    header: Result<Program<T>, E>,
    footer: Result<Program<T>, E>,
) -> bool {
    match header_error(header) {
        Some(e) => out == Err::<Module<T>, FoldError>(e),
        None => match footer_error(footer) {
            Some(e) => out == Err::<Module<T>, FoldError>(e),
            None => out is Ok && is_spliced(
                out->Ok_0,
                module,
                fragment(header),
                fragment(footer),
            ),
        },
    }
}

/// `program` is a possible answer of `parse` to the text `source`, asked
/// with an empty origin label and as ordinary script code.
pub open spec fn parsed_by<T, E, F: Fn(String, &'static str, ModuleType) -> Result<Program<T>, E>>(
    parse: F,
    source: Seq<char>,
    program: Result<Program<T>, E>,
) -> bool {
    exists|text: String, origin: &'static str|
        text@ == source && origin@.len() == 0 && call_ensures(
            parse,
            (text, origin, ModuleType::Js),
            program,
        )
}

/// Builds the module `header ++ body ++ footer`, keeping the metadata of
/// `module`. No statement is dropped, repeated or reordered.
pub fn splice<T>(module: Module<T>, header: Module<T>, footer: Module<T>) -> (out: Module<T>)
    ensures
        is_spliced(out, module, header.body@, footer.body@),
{
    let Module { span, body: module_body, shebang } = module;
    let mut module_body = module_body;
    let mut body = header.body;
    let mut footer_body = footer.body;
    body.append(&mut module_body);
    body.append(&mut footer_body);
    Module { span, body, shebang }
}

/// Splices two parsed fragments around `module`, or reports the first
/// defect: a header that failed to parse or is no module, then the same
/// of the footer.
pub fn fold_parsed<T, E>(
    module: Module<T>,
    header: Result<Program<T>, E>,
    footer: Result<Program<T>, E>,
) -> (out: Result<Module<T>, FoldError>)
    ensures
        is_folded(out, module, header, footer),
{
    let header_module = match header {
        Err(_) => {
            return Err(FoldError::HeaderParse);
        },
        Ok(Program::Script) => {
            return Err(FoldError::HeaderShape);
        },
        Ok(Program::Module(m)) => m,
    };
    let footer_module = match footer {
        Err(_) => {
            return Err(FoldError::FooterParse);
        },
        Ok(Program::Script) => {
            return Err(FoldError::FooterShape);
        },
        Ok(Program::Module(m)) => m,
    };
    Ok(splice(module, header_module, footer_module))
}

impl ReactHmrFolder {
    /// A folder for the module with identifier `id`.
    pub fn new(id: String) -> (folder: Self)
        ensures
            folder.id == id,
    {
        ReactHmrFolder { id }
    }

    /// The header text for this folder's module.
    pub fn header_source(&self) -> (text: String)
        ensures
            text@ == rendered_header(self.id@),
    {
        render_header(self.id.as_str())
    }

    /// Transforms one module. A module that is no refresh boundary comes
    /// back as it is, and `parse` is not called. For a boundary, the header
    /// text with this folder's identifier in it is parsed; if that gave a
    /// module, the footer text is parsed; and the result is the two
    /// fragments spliced around the body, or the first defect.
    pub fn fold_module<T, E, F: Fn(String, &'static str, ModuleType) -> Result<Program<T>, E>>(
        &mut self,
        module: Module<T>,
        parse: F,
    ) -> (out: Result<Module<T>, FoldError>)
        requires
            forall|text: String, origin: &'static str|
                origin@.len() == 0 && (text@ == rendered_header(old(self).id@) || text@
                    == footer_template()) ==> call_requires(
                    parse,
                    (text, origin, ModuleType::Js),
                ),
        ensures
            *final(self) == *old(self),
            !module.is_refresh_boundary() ==> out == Ok::<Module<T>, FoldError>(module),
            module.is_refresh_boundary() ==> exists|header: Result<Program<T>, E>|
                #![auto]
                parsed_by(parse, rendered_header(old(self).id@), header) && match header_error(
                    header,
                ) {
                    Some(e) => out == Err::<Module<T>, FoldError>(e),
                    None => exists|footer: Result<Program<T>, E>|
                        #![auto]
                        parsed_by(parse, footer_template(), footer) && is_folded(
                            out,
                            module,
                            header,
                            footer,
                        ),
                },
    {
        if !is_refresh_boundary(&module) {
            return Ok(module);
        }
        let header_text = self.header_source();
        let ghost header_in = header_text;
        let origin: &'static str = "";
        proof {
            reveal_strlit("");
        }
        let header = parse(header_text, origin, ModuleType::Js);
        assert(parsed_by(parse, rendered_header(self.id@), header)) by {
            assert(call_ensures(parse, (header_in, origin, ModuleType::Js), header));
        }
        let header_module = match header {
            Err(_) => {
                return Err(FoldError::HeaderParse);
            },
            Ok(Program::Script) => {
                return Err(FoldError::HeaderShape);
            },
            Ok(Program::Module(m)) => m,
        };
        let footer_text = render_footer();
        let ghost footer_in = footer_text;
        let footer = parse(footer_text, origin, ModuleType::Js);
        assert(parsed_by(parse, footer_template(), footer)) by {
            assert(call_ensures(parse, (footer_in, origin, ModuleType::Js), footer));
        }
        let out = fold_parsed(module, Ok::<Program<T>, E>(Program::Module(header_module)), footer);
        assert(is_folded(out, module, header, footer));
        out
    }
}

} // verus!
