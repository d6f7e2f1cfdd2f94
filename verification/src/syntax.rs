//! The parser of the `rustpython-parser` crate, as this library uses it: the
//! statements of a module, and the few shapes of expression that a decorator
//! is read from.

use vstd::prelude::*;

verus! {

/// `rustpython_parser::ast::Stmt`: a statement of the syntax tree. What it
/// holds is known by `function_definition` alone.
#[verifier::external_type_specification]
#[verifier::external_body]
#[verifier::reject_recursive_types(R)]
pub struct ExStmt<R>(rustpython_parser::ast::Stmt<R>);

/// `rustpython_parser::ast::Expr`: an expression of the syntax tree. What it
/// holds is known by `call_of`, `attribute_of` and `string_of` alone.
#[verifier::external_type_specification]
#[verifier::external_body]
#[verifier::reject_recursive_types(R)]
pub struct ExExpr<R>(rustpython_parser::ast::Expr<R>);

/// `rustpython_parser::text_size::TextRange`: the place of a node in the
/// source, which every node of the tree carries.
#[verifier::external_type_specification]
#[verifier::external_body]
pub struct ExTextRange(rustpython_parser::text_size::TextRange);

/// The statements at the top level of a source, as the parser reads them;
/// nothing where the source is no module of the language.
pub uninterp spec fn module_statements(source: Seq<char>) -> Option<
    Seq<rustpython_parser::ast::Stmt>,
>;

/// What a statement holds if it is a function definition: its name, the
/// number of its parameters that can be passed by position or by name,
/// whether it declares a return type, and its decorators in the order in
/// which they are written.
pub uninterp spec fn function_definition(statement: rustpython_parser::ast::Stmt) -> Option<
    (Seq<char>, nat, bool, Seq<rustpython_parser::ast::Expr>),
>;

/// What an expression holds if it is a call: the expression that is called,
/// and the positional arguments in order.
pub uninterp spec fn call_of(expression: rustpython_parser::ast::Expr) -> Option<
    (rustpython_parser::ast::Expr, Seq<rustpython_parser::ast::Expr>),
>;

/// What an expression holds if it is an attribute access `value.attr`: the
/// name that `value` is, if it is a plain name, and `attr`.
pub uninterp spec fn attribute_of(expression: rustpython_parser::ast::Expr) -> Option<
    (Option<Seq<char>>, Seq<char>),
>;

/// The text of an expression that is a string constant.
pub uninterp spec fn string_of(expression: rustpython_parser::ast::Expr) -> Option<Seq<char>>;

/// The length in bytes of the longest source that the parser reads: it
/// counts its place in the source in 32 bits.
pub const SOURCE_LIMIT: usize = 0xFFFF_FFFF;

/// `rustpython_parser::parse` in module mode: the statements at the top level
/// of the source, or the parser's words on why the source is no module. The
/// parser reads nothing but the source, so the statements are a function of
/// it, which `module_statements` names. The parser's place in the source is
/// a 32-bit count of the bytes it has read, which a longer source overflows:
/// such a source is not handed to it.
#[verifier::external_body]
pub(crate) fn parse_module(source: &str) -> (r: Result<
    Vec<rustpython_parser::ast::Stmt>,
    String,
>)
    requires
        vstd::utf8::encode_utf8(source@).len() <= SOURCE_LIMIT,
    ensures
        match r {
            Ok(statements) => module_statements(source@) == Some(statements@),
            Err(_) => module_statements(source@) is None,
        },
{
    rustpython_parser::parse(source, rustpython_parser::Mode::Module, "<source>").map(
        |parsed| parsed.module().map(|module| module.body).unwrap_or_default(),
    ).map_err(|error| error.to_string())
}

/// `Stmt::as_function_def_stmt`: of a function definition its name, the
/// number of its parameters that can be passed by position or by name,
/// whether it declares a return type, and its decorators; nothing of any
/// other statement. These are fields of the statement, which
/// `function_definition` names.
#[verifier::external_body]
pub(crate) fn function_parts(statement: &rustpython_parser::ast::Stmt) -> (r: Option<
    (String, usize, bool, &Vec<rustpython_parser::ast::Expr>),
>)
    ensures
        match r {
            Some((name, arg_count, has_return, decorators)) => function_definition(*statement)
                == Some((name@, arg_count as nat, has_return, decorators@)),
            None => function_definition(*statement) is None,
        },
{
    statement.as_function_def_stmt().map(
        |f| (f.name.to_string(), f.args.args.len(), f.returns.is_some(), &f.decorator_list),
    )
}

/// `Expr::as_call_expr`: of a call the expression that is called and the
/// positional arguments; nothing of any other expression. These are fields
/// of the expression, which `call_of` names.
#[verifier::external_body]
pub(crate) fn call_parts(expression: &rustpython_parser::ast::Expr) -> (r: Option<
    (&rustpython_parser::ast::Expr, &Vec<rustpython_parser::ast::Expr>),
>)
    ensures
        match r {
            Some((callee, arguments)) => call_of(*expression) == Some((*callee, arguments@)),
            None => call_of(*expression) is None,
        },
{
    expression.as_call_expr().map(|call| (&*call.func, &call.args))
}

/// `Expr::as_attribute_expr`: of an attribute access `value.attr` the name
/// that `value` is, if it is a plain name, and `attr`; nothing of any other
/// expression. These are fields of the expression, which `attribute_of`
/// names.
#[verifier::external_body]
pub(crate) fn attribute_parts(expression: &rustpython_parser::ast::Expr) -> (r: Option<
    (Option<String>, String),
>)
    ensures
        match r {
            Some((base, attr)) => attribute_of(*expression) == Some(
                (
                    match base {
                        Some(name) => Some(name@),
                        None => None,
                    },
                    attr@,
                ),
            ),
            None => attribute_of(*expression) is None,
        },
{
    expression.as_attribute_expr().map(
        |attribute|
            (
                attribute.value.as_name_expr().map(|name| name.id.to_string()),
                attribute.attr.to_string(),
            ),
    )
}

/// `Expr::as_constant_expr` and `Constant::as_str`: the text of a string
/// constant; nothing of any other expression. The text is a field of the
/// expression, which `string_of` names.
#[verifier::external_body]
pub(crate) fn string_constant(expression: &rustpython_parser::ast::Expr) -> (r: Option<String>)
    ensures
        match r {
            Some(text) => string_of(*expression) == Some(text@),
            None => string_of(*expression) is None,
        },
{
    expression.as_constant_expr().and_then(|constant| constant.value.as_str()).map(
        |text| text.to_string(),
    )
}

} // verus!
