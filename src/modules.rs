//! Processing units: a `Map` transforms each record, a `Store` accumulates
//! state under an update policy.
use vstd::prelude::*;

verus! {

/// A named processing unit with its script code and declared inputs.
pub enum Module {
    Mapper { name: String, code: String, inputs: Vec<String>, editing: bool },
    Store {
        name: String,
        code: String,
        inputs: Vec<String>,
        update_policy: String,
        editing: bool,
    },
}

impl Module {
    pub open spec fn spec_name(&self) -> Seq<char> {
        match self {
            Module::Mapper { name, .. } => name@,
            Module::Store { name, .. } => name@,
        }
    }

    pub open spec fn spec_code(&self) -> Seq<char> {
        match self {
            Module::Mapper { code, .. } => code@,
            Module::Store { code, .. } => code@,
        }
    }

    pub open spec fn spec_inputs(&self) -> Seq<String> {
        match self {
            Module::Mapper { inputs, .. } => inputs@,
            Module::Store { inputs, .. } => inputs@,
        }
    }

    pub open spec fn spec_editing(&self) -> bool {
        match self {
            Module::Mapper { editing, .. } => *editing,
            Module::Store { editing, .. } => *editing,
        }
    }

    pub open spec fn spec_code_string(&self) -> String {
        match self {
            Module::Mapper { code, .. } => *code,
            Module::Store { code, .. } => *code,
        }
    }

    pub open spec fn spec_inputs_vec(&self) -> Vec<String> {
        match self {
            Module::Mapper { inputs, .. } => *inputs,
            Module::Store { inputs, .. } => *inputs,
        }
    }

    /// This module with its code replaced.
    pub open spec fn with_code(self, c: String) -> Module {
        match self {
            Module::Mapper { name, inputs, editing, .. } => Module::Mapper {
                name,
                code: c,
                inputs,
                editing,
            },
            Module::Store { name, inputs, update_policy, editing, .. } => Module::Store {
                name,
                code: c,
                inputs,
                update_policy,
                editing,
            },
        }
    }

    /// This module under another name.
    pub open spec fn with_name(self, n: String) -> Module {
        match self {
            Module::Mapper { code, inputs, editing, .. } => Module::Mapper {
                name: n,
                code,
                inputs,
                editing,
            },
            Module::Store { code, inputs, update_policy, editing, .. } => Module::Store {
                name: n,
                code,
                inputs,
                update_policy,
                editing,
            },
        }
    }

    /// This module with its editing flag replaced.
    pub open spec fn with_editing(self, e: bool) -> Module {
        match self {
            Module::Mapper { name, code, inputs, .. } => Module::Mapper {
                name,
                code,
                inputs,
                editing: e,
            },
            Module::Store { name, code, inputs, update_policy, .. } => Module::Store {
                name,
                code,
                inputs,
                update_policy,
                editing: e,
            },
        }
    }

    /// This module with its declared inputs replaced.
    pub open spec fn with_inputs(self, i: Vec<String>) -> Module {
        match self {
            Module::Mapper { name, code, editing, .. } => Module::Mapper {
                name,
                code,
                inputs: i,
                editing,
            },
            Module::Store { name, code, update_policy, editing, .. } => Module::Store {
                name,
                code,
                inputs: i,
                update_policy,
                editing,
            },
        }
    }

    pub fn name(&self) -> (r: &str)
        ensures
            r@ == self.spec_name(),
    {
        match self {
            Module::Mapper { name, .. } => name.as_str(),
            Module::Store { name, .. } => name.as_str(),
        }
    }

    pub fn code(&self) -> (r: &str)
        ensures
            r@ == self.spec_code(),
    {
        match self {
            Module::Mapper { code, .. } => code.as_str(),
            Module::Store { code, .. } => code.as_str(),
        }
    }

    pub fn code_mut(&mut self) -> (r: &mut String)
        ensures
            *r == old(self).spec_code_string(),
            *final(self) == old(self).with_code(*final(r)),
    {
        match self {
            Module::Mapper { code, .. } => code,
            Module::Store { code, .. } => code,
        }
    }

    pub fn editing(&self) -> (r: &bool)
        ensures
            *r == self.spec_editing(),
    {
        match self {
            Module::Mapper { editing, .. } => editing,
            Module::Store { editing, .. } => editing,
        }
    }

    pub fn editing_mut(&mut self) -> (r: &mut bool)
        ensures
            *r == old(self).spec_editing(),
            *final(self) == old(self).with_editing(*final(r)),
    {
        match self {
            Module::Mapper { editing, .. } => editing,
            Module::Store { editing, .. } => editing,
        }
    }

    pub fn inputs(&self) -> (r: &Vec<String>)
        ensures
            r@ == self.spec_inputs(),
    {
        match self {
            Module::Mapper { inputs, .. } => inputs,
            Module::Store { inputs, .. } => inputs,
        }
    }

    pub fn inputs_mut(&mut self) -> (r: &mut Vec<String>)
        ensures
            *r == old(self).spec_inputs_vec(),
            *final(self) == old(self).with_inputs(*final(r)),
    {
        match self {
            Module::Mapper { inputs, .. } => inputs,
            Module::Store { inputs, .. } => inputs,
        }
    }
}

} // verus!
