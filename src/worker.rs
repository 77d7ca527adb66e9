//! The script worker: a scripting engine with a persistent scope and the
//! code built so far, and what it does with each request.
use vstd::prelude::*;
use vstd::string::*;
use rhai::{Dynamic, Engine, EvalAltResult, OptimizationLevel, ParseError, Scope, AST};
use serde_json::Value;
use crate::tasks::{GuiMessage, WorkerMessage};
use crate::text::{decimal, decimal_u64};

verus! {

#[verifier::external_type_specification]
#[verifier::external_body]
pub struct ExEngine(rhai::Engine);

#[verifier::external_type_specification]
#[verifier::external_body]
pub struct ExScope<'a>(rhai::Scope<'a>);

#[verifier::external_type_specification]
#[verifier::external_body]
pub struct ExAst(rhai::AST);

#[verifier::external_type_specification]
#[verifier::external_body]
pub struct ExDynamic(rhai::Dynamic);

#[verifier::external_type_specification]
#[verifier::external_body]
pub struct ExEvalAltResult(rhai::EvalAltResult);

#[verifier::external_type_specification]
#[verifier::external_body]
pub struct ExParseError(rhai::ParseError);

/// The names of the variables that a scope holds, in order.
pub uninterp spec fn scope_vars(s: Scope<'static>) -> Seq<Seq<char>>;

/// What compiling `text` gives with this engine and against this scope.
pub uninterp spec fn compile_of(e: Engine, s: Scope<'static>, text: Seq<char>) -> Result<
    AST,
    ParseError,
>;

/// The names of the script functions that compiled code defines.
pub uninterp spec fn ast_functions(a: AST) -> Set<Seq<char>>;

/// The number of top-level statements of compiled code.
pub uninterp spec fn ast_statements(a: AST) -> nat;

/// The script value of a JSON value, where it has one.
pub uninterp spec fn script_value_of(v: Value) -> Option<Dynamic>;

/// Relies on rhai's `Engine::new`: an engine with the standard packages.
/// Scripts meant for a host that registers `add_mfn`, `add_sfn` and
/// `codegen` find no such functions in it: those come from a package that
/// upstream rhai does not ship.
#[verifier::external_body]
fn new_engine() -> Engine {
    Engine::new()
}

/// Relies on rhai's `Engine::set_optimization_level`, set to full.
#[verifier::external_body]
fn optimize_fully(engine: &mut Engine) {
    engine.set_optimization_level(OptimizationLevel::Full);
}

/// Relies on rhai's `Scope::new`: a scope with no variables.
#[verifier::external_body]
fn empty_scope() -> (r: Scope<'static>)
    ensures
        scope_vars(r) == Seq::<Seq<char>>::empty(),
{
    Scope::new()
}

/// Relies on rhai's `AST::empty`: code with no statements and no functions.
#[verifier::external_body]
fn empty_ast() -> (r: AST)
    ensures
        ast_functions(r) == Set::<Seq<char>>::empty(),
        ast_statements(r) == 0,
{
    AST::empty()
}

/// Relies on rhai's `Engine::compile_with_scope`: the text compiled, or why
/// it does not. The scope is only read.
#[verifier::external_body]
fn compile(engine: &Engine, scope: &Scope<'static>, code: &str) -> (r: Result<AST, ParseError>)
    ensures
        r == compile_of(*engine, *scope, code@),
{
    engine.compile_with_scope(scope, code)
}

/// Relies on the conversion that rhai gives from `ParseError` to its error type.
#[verifier::external_body]
fn parse_failure(e: ParseError) -> Box<EvalAltResult> {
    e.into()
}

/// Relies on rhai's `Engine::optimize_ast`, at full optimization.
#[verifier::external_body]
fn optimize(engine: &Engine, scope: &Scope<'static>, ast: AST) -> AST {
    engine.optimize_ast(scope, ast, OptimizationLevel::Full)
}

/// Relies on rhai's `AST` `+=`: the functions and statements of `ast`
/// added to those of `main`.
#[verifier::external_body]
fn merge_into(main: &mut AST, ast: AST) {
    *main += ast;
}

/// Relies on rhai's `Engine::eval_ast_with_scope`: runs the code, which may
/// change the scope.
#[verifier::external_body]
fn eval_ast(engine: &Engine, scope: &mut Scope<'static>, ast: &AST) -> Result<
    Dynamic,
    Box<EvalAltResult>,
> {
    engine.eval_ast_with_scope::<Dynamic>(scope, ast)
}

/// Relies on rhai's `Engine::call_fn`: calls a function of the code with
/// positional arguments.
#[verifier::external_body]
fn call_function(
    engine: &Engine,
    scope: &mut Scope<'static>,
    ast: &AST,
    name: &str,
    args: Vec<Dynamic>,
) -> Result<Dynamic, Box<EvalAltResult>> {
    engine.call_fn::<Dynamic>(scope, ast, name, args)
}

/// Relies on rhai's `Engine::eval_with_scope`: compiles and runs a text.
#[verifier::external_body]
fn eval_text(engine: &Engine, scope: &mut Scope<'static>, text: &str) -> Result<
    Dynamic,
    Box<EvalAltResult>,
> {
    engine.eval_with_scope::<Dynamic>(scope, text)
}

/// Relies on rhai's `Scope::clear`: removes every variable.
#[verifier::external_body]
fn clear_scope(scope: &mut Scope<'static>)
    ensures
        scope_vars(*final(scope)) == Seq::<Seq<char>>::empty(),
{
    scope.clear();
}

/// Relies on serde_json::from_value with rhai's deserializer: the script
/// value of a JSON value, where it has one.
#[verifier::external_body]
fn script_value(v: Value) -> (r: Result<Dynamic, serde_json::Error>)
    ensures
        r is Ok <==> script_value_of(v) is Some,
        r matches Ok(d) ==> script_value_of(v) == Some(d),
{
    serde_json::from_value(v)
}

/// Relies on serde_json::to_string_pretty with rhai's serializer: the
/// value as indented JSON text.
#[verifier::external_body]
fn pretty_json(d: &Dynamic) -> Result<String, serde_json::Error> {
    serde_json::to_string_pretty(d)
}

/// Relies on the `Debug` rendering of rhai's results.
#[verifier::external_body]
fn result_debug(r: &Result<Dynamic, Box<EvalAltResult>>) -> String {
    format!("{:?}", r)
}

/// Relies on the `Debug` rendering of rhai's errors.
#[verifier::external_body]
fn error_debug(e: &Box<EvalAltResult>) -> String {
    format!("{:?}", e)
}

/// `t` begins with `p`.
pub open spec fn has_prefix(t: Seq<char>, p: Seq<char>) -> bool {
    p.len() <= t.len() && t.subrange(0, p.len() as int) == p
}

/// The line `prefix` followed by `rest`, which begins with `prefix`.
fn prefixed(prefix: &str, rest: &String) -> (r: String)
    ensures
        r@ == prefix@ + rest@,
        has_prefix(r@, prefix@),
{
    let mut t = String::new();
    t.append(prefix);
    t.append(rest.as_str());
    assert(t@.subrange(0, prefix@.len() as int) =~= prefix@);
    t
}

/// The warning for argument `index` of a call, which has no script value
/// and is left out.
pub open spec fn dropped_argument_text(index: nat) -> Seq<char> {
    "Warning: argument "@ + decimal(index) + " has no script value and is left out"@
}

/// The call arguments made of `args`: the script value of each that has
/// one, in order.
pub open spec fn script_args(args: Seq<Value>) -> Seq<Dynamic>
    decreases args.len(),
{
    if args.len() == 0 {
        Seq::empty()
    } else {
        let rest = script_args(args.drop_last());
        match script_value_of(args.last()) {
            Some(d) => rest.push(d),
            None => rest,
        }
    }
}

/// One warning for each of `args` that has no script value, in order.
pub open spec fn arg_warnings(args: Seq<Value>) -> Seq<Seq<char>>
    decreases args.len(),
{
    if args.len() == 0 {
        Seq::empty()
    } else {
        let rest = arg_warnings(args.drop_last());
        match script_value_of(args.last()) {
            Some(_) => rest,
            None => rest.push(dropped_argument_text((args.len() - 1) as nat)),
        }
    }
}

/// The text that the build request runs: a call of the script's `codegen`.
pub open spec fn build_text() -> Seq<char> {
    "codegen()"@
}

/// The text that the build request runs.
pub fn build_script() -> (r: &'static str)
    ensures
        r@ == build_text(),
{
    "codegen()"
}

/// Turns JSON arguments into the arguments of a call: those with a script
/// value are kept, in order, and each of the others gets a warning.
pub fn convert_args(args: &Vec<Value>) -> (r: (Vec<Dynamic>, Vec<String>))
    ensures
        r.0@ == script_args(args@),
        r.1@.len() == arg_warnings(args@).len(),
        forall|i: int| 0 <= i < r.1@.len() ==> (#[trigger] r.1@[i])@ == arg_warnings(args@)[i],
{
    let mut values: Vec<Dynamic> = Vec::new();
    let mut warnings: Vec<String> = Vec::new();
    let mut index: usize = 0;
    while index < args.len()
        invariant
            index <= args@.len(),
            values@ == script_args(args@.subrange(0, index as int)),
            warnings@.len() == arg_warnings(args@.subrange(0, index as int)).len(),
            forall|i: int|
                0 <= i < warnings@.len() ==> (#[trigger] warnings@[i])@ == arg_warnings(
                    args@.subrange(0, index as int),
                )[i],
        decreases args@.len() - index,
    {
        let ghost prefix = args@.subrange(0, index + 1);
        proof {
            assert(prefix.drop_last() =~= args@.subrange(0, index as int));
            assert(prefix.last() == args@[index as int]);
        }
        match script_value(args[index].clone()) {
            Ok(d) => values.push(d),
            Err(_) => {
                let mut t = String::new();
                t.append("Warning: argument ");
                t.append(decimal_u64(index as u64).as_str());
                t.append(" has no script value and is left out");
                warnings.push(t);
            },
        }
        index = index + 1;
    }
    proof {
        assert(args@.subrange(0, index as int) =~= args@);
    }
    (values, warnings)
}

/// What came of evaluating a text.
pub enum Evaluation {
    /// The text did not compile; nothing changed.
    NotCompiled(Box<EvalAltResult>),
    /// The text compiled, was added to the code built so far, and that code
    /// ran, with this outcome.
    Ran(Result<Dynamic, Box<EvalAltResult>>),
}

/// A scripting engine, the scope whose variables persist from one request to
/// the next, and the code built so far.
pub struct ScriptWorker {
    engine: Engine,
    scope: Scope<'static>,
    main_ast: AST,
}

impl ScriptWorker {
    pub closed spec fn spec_scope(&self) -> Scope<'static> {
        self.scope
    }

    pub closed spec fn spec_code(&self) -> AST {
        self.main_ast
    }

    pub closed spec fn spec_engine(&self) -> Engine {
        self.engine
    }

    /// A worker with a fully optimizing engine, a scope with no variables
    /// and no code.
    pub fn new() -> (r: ScriptWorker)
        ensures
            scope_vars(r.spec_scope()) == Seq::<Seq<char>>::empty(),
            ast_functions(r.spec_code()) == Set::<Seq<char>>::empty(),
            ast_statements(r.spec_code()) == 0,
    {
        let mut engine = new_engine();
        optimize_fully(&mut engine);
        ScriptWorker { engine, scope: empty_scope(), main_ast: empty_ast() }
    }

    /// Compiles `code` against the scope, adds it to the code built so far,
    /// and runs that code; where `code` does not compile, nothing changes.
    pub fn evaluate(&mut self, code: &str) -> (r: Evaluation)
        ensures
            final(self).spec_engine() == old(self).spec_engine(),
            r is NotCompiled <==> compile_of(
                old(self).spec_engine(),
                old(self).spec_scope(),
                code@,
            ) is Err,
            r is NotCompiled ==> *final(self) == *old(self),
    {
        match compile(&self.engine, &self.scope, code) {
            Ok(ast) => {
                let ast = optimize(&self.engine, &self.scope, ast);
                merge_into(&mut self.main_ast, ast);
                Evaluation::Ran(eval_ast(&self.engine, &mut self.scope, &self.main_ast))
            },
            Err(e) => Evaluation::NotCompiled(parse_failure(e)),
        }
    }

    /// Clears the scope, the code built so far, or both, as asked; what is
    /// not asked for stays.
    pub fn reset(&mut self, clear_scope_vars: bool, clear_code: bool)
        ensures
            final(self).spec_engine() == old(self).spec_engine(),
            clear_scope_vars ==> scope_vars(final(self).spec_scope()) == Seq::<Seq<char>>::empty(),
            !clear_scope_vars ==> final(self).spec_scope() == old(self).spec_scope(),
            clear_code ==> ast_functions(final(self).spec_code()) == Set::<Seq<char>>::empty()
                && ast_statements(final(self).spec_code()) == 0,
            !clear_code ==> final(self).spec_code() == old(self).spec_code(),
    {
        if clear_scope_vars {
            clear_scope(&mut self.scope);
        }
        if clear_code {
            self.main_ast = empty_ast();
        }
    }

    /// Carries out one request and returns the notices for the interface.
    ///
    /// An evaluation gives one line with its result or error, and changes
    /// nothing where the text does not compile; a call gives a warning line
    /// for each argument that has no script value and is left out, then the
    /// result as JSON or an error line; a reset empties the scope, keeps the
    /// code, and clears the log; a build runs `codegen()` and gives one line
    /// with its outcome.
    pub fn handle(&mut self, msg: WorkerMessage) -> (r: Vec<GuiMessage>)
        ensures
            final(self).spec_engine() == old(self).spec_engine(),
            match msg {
                WorkerMessage::Eval(code) => {
                    &&& r@.len() == 1
                    &&& r@[0] matches GuiMessage::PushMessage(t) && has_prefix(t@, "Result: "@)
                    &&& compile_of(old(self).spec_engine(), old(self).spec_scope(), code@) is Err
                        ==> *final(self) == *old(self)
                },
                WorkerMessage::EvalWithArgs(_, args) => {
                    &&& r@.len() == arg_warnings(args@).len() + 1
                    &&& forall|i: int|
                        0 <= i < arg_warnings(args@).len() ==> (#[trigger] r@[i] matches GuiMessage::PushMessage(t)
                            && t@ == arg_warnings(args@)[i])
                    &&& r@.last() is PushJson || (r@.last() matches GuiMessage::PushMessage(t)
                        && has_prefix(t@, "Error: "@))
                    &&& final(self).spec_code() == old(self).spec_code()
                },
                WorkerMessage::Reset => {
                    &&& r@ == seq![GuiMessage::ClearMessages]
                    &&& scope_vars(final(self).spec_scope()) == Seq::<Seq<char>>::empty()
                    &&& final(self).spec_code() == old(self).spec_code()
                },
                WorkerMessage::Build => {
                    &&& r@.len() == 1
                    &&& r@[0] matches GuiMessage::PushMessage(t) && has_prefix(t@, "Build Log: "@)
                    &&& final(self).spec_code() == old(self).spec_code()
                },
            },
    {
        let mut out: Vec<GuiMessage> = Vec::new();
        match msg {
            WorkerMessage::Eval(code) => {
                let result = match self.evaluate(code.as_str()) {
                    Evaluation::NotCompiled(e) => Err(e),
                    Evaluation::Ran(result) => result,
                };
                out.push(GuiMessage::PushMessage(prefixed("Result: ", &result_debug(&result))));
            },
            WorkerMessage::EvalWithArgs(name, args) => {
                let (values, warnings) = convert_args(&args);
                let mut i: usize = 0;
                while i < warnings.len()
                    invariant
                        i <= warnings@.len(),
                        warnings@.len() == arg_warnings(args@).len(),
                        forall|q: int| 0 <= q < warnings@.len() ==> (#[trigger] warnings@[q])@ == arg_warnings(args@)[q],
                        out@.len() == i,
                        forall|q: int|
                            0 <= q < i ==> (#[trigger] out@[q] matches GuiMessage::PushMessage(t) && t@
                                == arg_warnings(args@)[q]),
                    decreases warnings@.len() - i,
                {
                    out.push(GuiMessage::PushMessage(warnings[i].clone()));
                    i = i + 1;
                }
                match call_function(&self.engine, &mut self.scope, &self.main_ast, name.as_str(), values) {
                    Ok(d) => match pretty_json(&d) {
                        Ok(text) => out.push(GuiMessage::PushJson(text)),
                        Err(_) => {
                            let mut t = String::new();
                            t.append("the result has no JSON form");
                            out.push(GuiMessage::PushMessage(prefixed("Error: ", &t)));
                        },
                    },
                    Err(e) => out.push(GuiMessage::PushMessage(prefixed("Error: ", &error_debug(&e)))),
                }
            },
            WorkerMessage::Reset => {
                out.push(GuiMessage::ClearMessages);
                self.reset(true, false);
            },
            WorkerMessage::Build => {
                let result = eval_text(&self.engine, &mut self.scope, build_script());
                out.push(GuiMessage::PushMessage(prefixed("Build Log: ", &result_debug(&result))));
            },
        }
        out
    }
}

} // verus!
