//! The whole pass: from a configuration and a module to the module rewritten.

use vstd::prelude::*;
use crate::ast::Module;
use crate::config::{raw_config, resolve, PluginConfig};
use crate::rules::RuleSet;

verus! {

/// Rewrites `program` under the rules of `config` and hands it back; `None`
/// stands for a configuration that is missing or could not be read.
pub fn process_transform(program: Module, config: Option<PluginConfig>) -> (rewritten: Module)
    ensures
        rewritten@ == RuleSet::resolve(raw_config(config)).rewrite_module(program@),
{
    let mut program = program;
    let mut visitor = resolve(config);
    visitor.visit_mut_module(&mut program);
    program
}

} // verus!
