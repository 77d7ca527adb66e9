//! The module graph and the script generated from it.
use vstd::prelude::*;
use vstd::string::*;
use crate::modules::Module;

verus! {

/// The modules of an editing session, each under an identity of its own.
///
/// The identity is independent of the module's name, so renaming a module
/// keeps its place in the graph. Identities are unique.
pub struct ModuleGraph {
    entries: Vec<(i64, Module)>,
}

/// Why a script could not be generated: `module` declares an input named
/// `input` that is neither a module of the graph nor the block source.
pub struct GenerateError {
    pub module: String,
    pub input: String,
}

/// The reserved input name that stands for the streamed block itself.
pub open spec fn block_source() -> Seq<char> {
    "BLOCK"@
}

/// The first module, in graph order, whose name is `name`.
pub open spec fn module_named(entries: Seq<(i64, Module)>, name: Seq<char>) -> Option<Module>
    decreases entries.len(),
{
    if entries.len() == 0 {
        None
    } else if entries[0].1.spec_name() == name {
        Some(entries[0].1)
    } else {
        module_named(entries.drop_first(), name)
    }
}

/// The descriptor that an input resolves to: the kind and name of the
/// module it names, else the block source; `None` when it names neither.
pub open spec fn input_descriptor(entries: Seq<(i64, Module)>, input: Seq<char>) -> Option<
    Seq<char>,
> {
    match module_named(entries, input) {
        Some(m) => Some(
            if m is Mapper {
                "#{kind: \"map\", name: \""@ + m.spec_name() + "\"}"@
            } else {
                "#{kind: \"store\", name: \""@ + m.spec_name() + "\"}"@
            },
        ),
        None => if input == block_source() {
            Some("#{kind: \"source\"}"@)
        } else {
            None
        },
    }
}

/// Every one of `inputs` resolves against the graph.
pub open spec fn inputs_resolve(entries: Seq<(i64, Module)>, inputs: Seq<String>) -> bool {
    forall|j: int| 0 <= j < inputs.len() ==> (#[trigger] input_descriptor(entries, inputs[j]@)) is Some
}

/// The descriptors of `inputs`, one for each, in declared order.
pub open spec fn descriptors(entries: Seq<(i64, Module)>, inputs: Seq<String>) -> Seq<Seq<char>> {
    Seq::new(inputs.len(), |j: int| input_descriptor(entries, inputs[j]@).unwrap())
}

/// The items of `items` separated by commas.
pub open spec fn comma_joined(items: Seq<Seq<char>>) -> Seq<char>
    decreases items.len(),
{
    if items.len() == 0 {
        Seq::empty()
    } else if items.len() == 1 {
        items[0]
    } else {
        comma_joined(items.drop_last()) + ","@ + items.last()
    }
}

/// The name of the runtime function that registers a module of this kind.
pub open spec fn register_function(m: Module) -> Seq<char> {
    if m is Mapper {
        "add_mfn"@
    } else {
        "add_sfn"@
    }
}

/// The registration statement of `m`, given its joined input descriptors.
pub open spec fn registration(m: Module, input_code: Seq<char>) -> Seq<char> {
    "\n"@ + register_function(m) + "(#{\n    name: \""@ + m.spec_name() + "\",\n    inputs: ["@
        + input_code + "],\n    handler: \""@ + m.spec_name() + "\"\n});\n"@
}

/// The registration statement of `m` with its inputs resolved against the graph.
pub open spec fn module_registration(entries: Seq<(i64, Module)>, m: Module) -> Seq<char> {
    registration(m, comma_joined(descriptors(entries, m.spec_inputs())))
}

/// Every declared input of every module of the graph resolves.
pub open spec fn graph_resolves(entries: Seq<(i64, Module)>) -> bool {
    forall|k: int| 0 <= k < entries.len() ==> inputs_resolve(entries, #[trigger] entries[k].1.spec_inputs())
}

/// The text generated for the module at index `k`: its registration
/// statement, its code, and a newline.
pub open spec fn module_block(entries: Seq<(i64, Module)>, k: int) -> Seq<char> {
    module_registration(entries, entries[k].1) + entries[k].1.spec_code() + "\n"@
}

/// The text generated for the first `n` modules of the graph.
pub open spec fn source_prefix(entries: Seq<(i64, Module)>, n: nat) -> Seq<char>
    decreases n,
{
    if n == 0 {
        Seq::empty()
    } else {
        source_prefix(entries, (n - 1) as nat) + module_block(entries, n - 1)
    }
}

/// The script generated for the whole graph.
pub open spec fn source_text(entries: Seq<(i64, Module)>) -> Seq<char> {
    source_prefix(entries, entries.len())
}

/// `e` names the first input, in graph order and then in declared order,
/// that does not resolve, and the module that declares it.
pub open spec fn first_unresolved(entries: Seq<(i64, Module)>, e: GenerateError) -> bool {
    exists|k: int, j: int|
        0 <= k < entries.len() && 0 <= j < entries[k].1.spec_inputs().len()
            && entries[k].1.spec_name() == e.module@
            && entries[k].1.spec_inputs()[j]@ == e.input@
            && input_descriptor(entries, e.input@) is None
            && (forall|q: int| 0 <= q < k ==> inputs_resolve(entries, #[trigger] entries[q].1.spec_inputs()))
            && (forall|q: int| 0 <= q < j ==> (#[trigger] input_descriptor(entries, entries[k].1.spec_inputs()[q]@)) is Some)
}

/// Identities are unique.
pub open spec fn ids_unique(entries: Seq<(i64, Module)>) -> bool {
    forall|a: int, b: int|
        0 <= a < entries.len() && 0 <= b < entries.len() && a != b ==> entries[a].0 != entries[b].0
}

/// The graph holds a module under `id`.
pub open spec fn has_id(entries: Seq<(i64, Module)>, id: i64) -> bool {
    exists|k: int| 0 <= k < entries.len() && entries[k].0 == id
}

impl View for ModuleGraph {
    type V = Seq<(i64, Module)>;

    closed spec fn view(&self) -> Seq<(i64, Module)> {
        self.entries@
    }
}

fn name_string(m: &Module) -> (r: &String)
    ensures
        r@ == m.spec_name(),
{
    match m {
        Module::Mapper { name, .. } => name,
        Module::Store { name, .. } => name,
    }
}

fn find_named<'a>(entries: &'a Vec<(i64, Module)>, name: &String) -> (r: Option<&'a Module>)
    ensures
        match r {
            Some(m) => module_named(entries@, name@) == Some(*m),
            None => module_named(entries@, name@) is None,
        },
{
    let mut i: usize = 0;
    proof {
        assert(entries@.subrange(0, entries.len() as int) =~= entries@);
    }
    while i < entries.len()
        invariant
            i <= entries.len(),
            module_named(entries@, name@) == module_named(
                entries@.subrange(i as int, entries.len() as int),
                name@,
            ),
        decreases entries.len() - i,
    {
        let m = &entries[i].1;
        proof {
            let rest = entries@.subrange(i as int, entries.len() as int);
            assert(rest.drop_first() =~= entries@.subrange(i + 1, entries.len() as int));
            assert(rest[0] == entries@[i as int]);
        }
        if *name_string(m) == *name {
            return Some(m);
        }
        i = i + 1;
    }
    proof {
        assert(entries@.subrange(i as int, entries.len() as int) =~= Seq::<(i64, Module)>::empty());
    }
    None
}


impl ModuleGraph {
    /// The graph is well formed: identities are unique.
    pub open spec fn wf(&self) -> bool {
        ids_unique(self@)
    }

    /// An empty graph.
    pub fn new() -> (r: ModuleGraph)
        ensures
            r@ == Seq::<(i64, Module)>::empty(),
            r.wf(),
    {
        ModuleGraph { entries: Vec::new() }
    }

    /// The number of modules.
    pub fn len(&self) -> (r: usize)
        ensures
            r == self@.len(),
    {
        self.entries.len()
    }

    /// Every module with its identity, in graph order.
    pub fn entries(&self) -> (r: &Vec<(i64, Module)>)
        ensures
            r@ == self@,
    {
        &self.entries
    }

    fn position(&self, id: i64) -> (r: Option<usize>)
        requires
            self.wf(),
        ensures
            match r {
                Some(k) => k < self@.len() && self@[k as int].0 == id,
                None => !has_id(self@, id),
            },
    {
        let mut k: usize = 0;
        while k < self.entries.len()
            invariant
                k <= self.entries.len(),
                forall|q: int| 0 <= q < k ==> self@[q].0 != id,
            decreases self.entries.len() - k,
        {
            if self.entries[k].0 == id {
                return Some(k);
            }
            k = k + 1;
        }
        None
    }

    /// The module held under `id`, if any.
    pub fn get(&self, id: i64) -> (r: Option<&Module>)
        requires
            self.wf(),
        ensures
            r is Some <==> has_id(self@, id),
            forall|k: int|
                0 <= k < self@.len() && self@[k].0 == id ==> r == Some(&self@[k].1),
    {
        match self.position(id) {
            Some(k) => Some(&self.entries[k].1),
            None => None,
        }
    }

    /// Puts `module` under `id`: in place of the module held there, which is
    /// returned, or else as a new last module.
    pub fn insert(&mut self, id: i64, module: Module) -> (r: Option<Module>)
        requires
            old(self).wf(),
        ensures
            final(self).wf(),
            forall|k: int|
                0 <= k < old(self)@.len() && old(self)@[k].0 == id ==> final(self)@ == old(
                    self,
                )@.update(k, (id, module)) && r == Some(old(self)@[k].1),
            !has_id(old(self)@, id) ==> final(self)@ == old(self)@.push((id, module)) && r is None,
    {
        match self.position(id) {
            Some(k) => {
                let (_, previous) = self.entries.remove(k);
                self.entries.insert(k, (id, module));
                proof {
                    assert(self@ =~= old(self)@.update(k as int, (id, module)));
                }
                Some(previous)
            },
            None => {
                self.entries.push((id, module));
                None
            },
        }
    }

    /// Takes out the module held under `id`, if any.
    pub fn remove(&mut self, id: i64) -> (r: Option<Module>)
        requires
            old(self).wf(),
        ensures
            final(self).wf(),
            forall|k: int|
                0 <= k < old(self)@.len() && old(self)@[k].0 == id ==> final(self)@ == old(
                    self,
                )@.remove(k) && r == Some(old(self)@[k].1),
            !has_id(old(self)@, id) ==> final(self)@ == old(self)@ && r is None,
    {
        match self.position(id) {
            Some(k) => {
                let (_, previous) = self.entries.remove(k);
                proof {
                    assert forall|a: int, b: int|
                        0 <= a < self@.len() && 0 <= b < self@.len() && a != b implies self@[a].0
                        != self@[b].0 by {
                        let oa = if a < k { a } else { a + 1 };
                        let ob = if b < k { b } else { b + 1 };
                        assert(self@[a] == old(self)@[oa]);
                        assert(self@[b] == old(self)@[ob]);
                    }
                }
                Some(previous)
            },
            None => None,
        }
    }

    /// Gives the module held under `id` the name `new_name`; false where the
    /// graph holds no module under `id`.
    pub fn rename(&mut self, id: i64, new_name: String) -> (r: bool)
        requires
            old(self).wf(),
        ensures
            final(self).wf(),
            r == has_id(old(self)@, id),
            forall|k: int|
                0 <= k < old(self)@.len() && old(self)@[k].0 == id ==> final(self)@ == old(
                    self,
                )@.update(k, (id, old(self)@[k].1.with_name(new_name))),
            !r ==> final(self)@ == old(self)@,
    {
        match self.position(id) {
            Some(k) => {
                let (_, mut module) = self.entries.remove(k);
                match &mut module {
                    Module::Mapper { name, .. } => *name = new_name,
                    Module::Store { name, .. } => *name = new_name,
                }
                self.entries.insert(k, (id, module));
                proof {
                    assert(self@ =~= old(self)@.update(k as int, (id, old(self)@[k as int].1.with_name(new_name))));
                }
                true
            },
            None => false,
        }
    }

    /// The module at `index` in graph order, to be edited in place; its
    /// identity stays.
    pub fn module_at_mut(&mut self, index: usize) -> (r: &mut Module)
        requires
            index < old(self)@.len(),
        ensures
            *r == old(self)@[index as int].1,
            final(self)@ == old(self)@.update(index as int, (old(self)@[index as int].0, *final(r))),
            old(self).wf() ==> final(self).wf(),
    {
        &mut self.entries[index].1
    }

    /// The script for the whole graph: for each module in graph order, its
    /// registration statement, its code and a newline. Fails, with no text,
    /// where some module declares an input that does not resolve.
    pub fn generate(&self) -> (r: Result<String, GenerateError>)
        ensures
            r is Ok <==> graph_resolves(self@),
            r matches Ok(s) ==> s@ == source_text(self@),
            r matches Err(e) ==> first_unresolved(self@, e),
    {
        let mut source = String::new();
        let mut k: usize = 0;
        while k < self.entries.len()
            invariant
                k <= self@.len(),
                forall|q: int| 0 <= q < k ==> inputs_resolve(self@, #[trigger] self@[q].1.spec_inputs()),
                source@ == source_prefix(self@, k as nat),
            decreases self@.len() - k,
        {
            let m = &self.entries[k].1;
            match m.register_module(self) {
                Ok(registration) => {
                    source.append(registration.as_str());
                    source.append(m.code());
                    source.append("\n");
                },
                Err(e) => {
                    return Err(e);
                },
            }
            k = k + 1;
        }
        Ok(source)
    }
}

impl Module {
    /// The descriptor that `input` resolves to in `graph`, or `None` where it
    /// names no module of the graph and is not the block source.
    pub fn generate_input_code(input: &String, graph: &ModuleGraph) -> (r: Option<String>)
        ensures
            match r {
                Some(s) => input_descriptor(graph@, input@) == Some(s@),
                None => input_descriptor(graph@, input@) is None,
            },
    {
        match find_named(&graph.entries, input) {
            Some(m) => {
                let mut s = String::new();
                match m {
                    Module::Mapper { .. } => s.append("#{kind: \"map\", name: \""),
                    Module::Store { .. } => s.append("#{kind: \"store\", name: \""),
                }
                s.append(m.name());
                s.append("\"}");
                Some(s)
            },
            None => {
                let block = String::from_str("BLOCK");
                if *input == block {
                    let mut s = String::new();
                    s.append("#{kind: \"source\"}");
                    Some(s)
                } else {
                    None
                }
            },
        }
    }

    /// The registration statement of this module, with each declared input
    /// resolved against `graph` in declared order; an error naming the first
    /// input that does not resolve.
    pub fn register_module(&self, graph: &ModuleGraph) -> (r: Result<String, GenerateError>)
        ensures
            r is Ok <==> inputs_resolve(graph@, self.spec_inputs()),
            r matches Ok(s) ==> s@ == module_registration(graph@, *self),
            r matches Err(e) ==> e.module@ == self.spec_name() && exists|j: int|
                0 <= j < self.spec_inputs().len() && self.spec_inputs()[j]@ == e.input@
                    && input_descriptor(graph@, e.input@) is None
                    && forall|q: int| 0 <= q < j ==> (#[trigger] input_descriptor(graph@, self.spec_inputs()[q]@)) is Some,
    {
        let inputs = self.inputs();
        let ghost descs = descriptors(graph@, self.spec_inputs());
        let mut input_code = String::new();
        let mut i: usize = 0;
        while i < inputs.len()
            invariant
                inputs@ == self.spec_inputs(),
                descs == descriptors(graph@, self.spec_inputs()),
                i <= inputs.len(),
                forall|j: int| 0 <= j < i ==> (#[trigger] input_descriptor(graph@, inputs@[j]@)) is Some,
                input_code@ == comma_joined(descs.subrange(0, i as int)),
            decreases inputs.len() - i,
        {
            match Module::generate_input_code(&inputs[i], graph) {
                Some(d) => {
                    proof {
                        let prev = descs.subrange(0, i as int);
                        let next = descs.subrange(0, i + 1);
                        assert(next.drop_last() =~= prev);
                        assert(next.last() == d@);
                    }
                    if i > 0 {
                        input_code.append(",");
                    } else {
                        proof {
                            assert(descs.subrange(0, 1).len() == 1);
                        }
                    }
                    input_code.append(d.as_str());
                },
                None => {
                    let mut module = String::new();
                    module.append(self.name());
                    return Err(GenerateError { module, input: inputs[i].clone() });
                },
            }
            i = i + 1;
        }
        proof {
            assert(descs.subrange(0, i as int) =~= descs);
        }
        let mut code = String::new();
        code.append("\n");
        match self {
            Module::Mapper { .. } => code.append("add_mfn"),
            Module::Store { .. } => code.append("add_sfn"),
        }
        code.append("(#{\n    name: \"");
        code.append(self.name());
        code.append("\",\n    inputs: [");
        code.append(input_code.as_str());
        code.append("],\n    handler: \"");
        code.append(self.name());
        code.append("\"\n});\n");
        Ok(code)
    }
}

/// Relies on rand::random: an identity drawn from the thread's random
/// number generator. Nothing is known of the value.
#[verifier::external_body]
fn random_id() -> i64 {
    rand::random()
}

/// `m` is the mapper that a new session starts with: `foo`, reading the block.
pub open spec fn is_default_mapper(m: Module) -> bool {
    &&& m is Mapper
    &&& m.spec_name() == "foo"@
    &&& m.spec_code() == "fn foo(BLOCK) {\n BLOCK.number \n}"@
    &&& m.spec_inputs().len() == 1
    &&& m.spec_inputs()[0]@ == block_source()
    &&& m.spec_editing()
}

/// `m` is the store that a new session starts with: `test_store`, reading `foo`.
pub open spec fn is_default_store(m: Module) -> bool {
    &&& m matches Module::Store { update_policy, .. } && update_policy@ == "set"@
    &&& m.spec_name() == "test_store"@
    &&& m.spec_code() == "fn test_store(test_map,s) {\n s.set(test_map); \n}"@
    &&& m.spec_inputs().len() == 1
    &&& m.spec_inputs()[0]@ == "foo"@
    &&& m.spec_editing()
}

/// `entries` is the graph that a new session starts with: the default
/// mapper then the default store, or the store alone where their identities
/// coincided.
pub open spec fn is_default_graph(entries: Seq<(i64, Module)>) -> bool {
    ||| entries.len() == 2 && is_default_mapper(entries[0].1) && is_default_store(entries[1].1)
    ||| entries.len() == 1 && is_default_store(entries[0].1)
}

proof fn lemma_default_graph_resolves(entries: Seq<(i64, Module)>)
    requires
        entries.len() == 2,
        is_default_mapper(entries[0].1),
        is_default_store(entries[1].1),
    ensures
        graph_resolves(entries),
{
    reveal_strlit("foo");
    reveal_strlit("BLOCK");
    reveal_strlit("test_store");
    let rest = entries.drop_first();
    assert(rest.drop_first().len() == 0);
    assert("foo"@.len() == 3);
    assert("BLOCK"@.len() == 5);
    assert("test_store"@.len() == 10);
    assert(entries[0].1.spec_name() != block_source());
    assert(rest[0].1.spec_name() != block_source());
    assert(module_named(rest.drop_first(), block_source()) is None);
    assert(module_named(rest, block_source()) is None);
    assert(module_named(entries, block_source()) is None);
    assert(module_named(entries, "foo"@) == Some(entries[0].1));
    assert(inputs_resolve(entries, entries[0].1.spec_inputs()));
    assert(inputs_resolve(entries, entries[1].1.spec_inputs()));
}

fn single_input(input: &str) -> (r: Vec<String>)
    ensures
        r@.len() == 1,
        r@[0]@ == input@,
{
    let mut v = Vec::new();
    v.push(String::from_str(input));
    v
}

impl Module {
    /// The graph that a new session starts with, under two identities drawn
    /// at random (see `default_modules_with_ids`).
    pub fn build_default_modules() -> (r: ModuleGraph)
        ensures
            r.wf(),
            is_default_graph(r@),
    {
        let first = random_id();
        let second = random_id();
        Module::default_modules_with_ids(first, second)
    }

    /// The graph that a new session starts with: the mapper `foo` over the
    /// block under `first`, then the store `test_store` over `foo` under
    /// `second`. Where the two identities are equal the store takes the
    /// mapper's place. Where they differ, every input resolves.
    pub fn default_modules_with_ids(first: i64, second: i64) -> (r: ModuleGraph)
        ensures
            r.wf(),
            is_default_graph(r@),
            first != second ==> r@.len() == 2 && r@[0].0 == first && r@[1].0 == second
                && graph_resolves(r@),
            first == second ==> r@.len() == 1 && r@[0].0 == second,
    {
        let mut graph = ModuleGraph::new();
        let foo = Module::Mapper {
            name: String::from_str("foo"),
            code: String::from_str("fn foo(BLOCK) {\n BLOCK.number \n}"),
            inputs: single_input("BLOCK"),
            editing: true,
        };
        assert(is_default_mapper(foo));
        graph.insert(first, foo);
        assert(graph@[0].0 == first);
        let store = Module::Store {
            name: String::from_str("test_store"),
            code: String::from_str("fn test_store(test_map,s) {\n s.set(test_map); \n}"),
            inputs: single_input("foo"),
            update_policy: String::from_str("set"),
            editing: true,
        };
        assert(is_default_store(store));
        let ghost before = graph@;
        graph.insert(second, store);
        proof {
            assert(before.len() == 1);
            assert(is_default_mapper(before[0].1));
            if first == second {
                assert(before[0].0 == second);
                assert(graph@ == before.update(0, (second, store)));
                assert(graph@[0].1 == store);
            } else {
                assert(!has_id(before, second));
                assert(graph@ == before.push((second, store)));
                assert(graph@[1].1 == store);
                assert(graph@[0].1 == before[0].1);
                lemma_default_graph_resolves(graph@);
            }
        }
        graph
    }

    /// The mapper that the editor adds on request.
    pub fn template_mapper() -> (r: Module)
        ensures
            r is Mapper,
            r.spec_name() == "template_mfn"@,
            r.spec_code() == "fn template_mfn(BLOCK) { block.number }"@,
            r.spec_inputs().len() == 1 && r.spec_inputs()[0]@ == block_source(),
            r.spec_editing(),
    {
        Module::Mapper {
            name: String::from_str("template_mfn"),
            code: String::from_str("fn template_mfn(BLOCK) { block.number }"),
            inputs: single_input("BLOCK"),
            editing: true,
        }
    }

    /// The store that the editor adds on request.
    pub fn template_store() -> (r: Module)
        ensures
            r matches Module::Store { update_policy, .. } && update_policy@ == "set"@,
            r.spec_name() == "template_sfn"@,
            r.spec_code() == "fn template_sfn(test_map,s) { s.set(test_map); }"@,
            r.spec_inputs().len() == 1 && r.spec_inputs()[0]@ == "test_map"@,
            r.spec_editing(),
    {
        Module::Store {
            name: String::from_str("template_sfn"),
            code: String::from_str("fn template_sfn(test_map,s) { s.set(test_map); }"),
            inputs: single_input("test_map"),
            update_policy: String::from_str("set"),
            editing: true,
        }
    }
}

} // verus!

verus! {

/// Where every declared input resolves, the generated script is, module after
/// module in graph order, one registration statement followed by the module's
/// code; the statement's input list holds one descriptor per declared input,
/// the descriptor of that input, in declared order.
pub proof fn lemma_generated_shape(g: ModuleGraph)
    requires
        graph_resolves(g@),
    ensures
        source_text(g@) == source_prefix(g@, g@.len()),
        forall|k: int|
            0 <= k < g@.len() ==> source_prefix(g@, (k + 1) as nat) == source_prefix(g@, k as nat)
                + registration(g@[k].1, comma_joined(#[trigger] descriptors(g@, g@[k].1.spec_inputs())))
                + g@[k].1.spec_code() + "\n"@,
        forall|k: int|
            0 <= k < g@.len() ==> (#[trigger] descriptors(g@, g@[k].1.spec_inputs())).len()
                == g@[k].1.spec_inputs().len(),
        forall|k: int, j: int|
            0 <= k < g@.len() && 0 <= j < g@[k].1.spec_inputs().len() ==> Some(
                #[trigger] descriptors(g@, g@[k].1.spec_inputs())[j],
            ) == input_descriptor(g@, g@[k].1.spec_inputs()[j]@),
{
    assert forall|k: int| 0 <= k < g@.len() implies source_prefix(g@, (k + 1) as nat)
        == source_prefix(g@, k as nat) + registration(
        g@[k].1,
        comma_joined(#[trigger] descriptors(g@, g@[k].1.spec_inputs())),
    ) + g@[k].1.spec_code() + "\n"@ by {
        assert(((k + 1) as nat - 1) as nat == k as nat);
    }
    assert forall|k: int, j: int|
        0 <= k < g@.len() && 0 <= j < g@[k].1.spec_inputs().len() implies Some(
        #[trigger] descriptors(g@, g@[k].1.spec_inputs())[j],
    ) == input_descriptor(g@, g@[k].1.spec_inputs()[j]@) by {
        assert(inputs_resolve(g@, g@[k].1.spec_inputs()));
        assert(input_descriptor(g@, g@[k].1.spec_inputs()[j]@) is Some);
    }
}

/// A graph in which some module declares an input that names no module of the
/// graph and is not the block source does not resolve, so generating its
/// script fails and yields no text.
pub proof fn lemma_unresolved_input_fails(g: ModuleGraph, k: int, j: int)
    requires
        0 <= k < g@.len(),
        0 <= j < g@[k].1.spec_inputs().len(),
        input_descriptor(g@, g@[k].1.spec_inputs()[j]@) is None,
    ensures
        !graph_resolves(g@),
{
    assert(!inputs_resolve(g@, g@[k].1.spec_inputs()));
}

/// Generation depends on the graph alone: two graphs that hold the same
/// modules under the same identities in the same order give the same outcome
/// and the same text.
pub proof fn lemma_generate_deterministic(g1: ModuleGraph, g2: ModuleGraph)
    requires
        g1@ == g2@,
    ensures
        graph_resolves(g1@) == graph_resolves(g2@),
        source_text(g1@) == source_text(g2@),
{
}

} // verus!
