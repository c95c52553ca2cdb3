//! The rule-evaluation adapter on the router: named fact collections,
//! named rule sets, and execution through the rule-engine collaborator.
//!
//! Execution may mutate the named fact collection in place; the adapter does
//! not interpret or expose which rules fired — only that execution
//! completed or failed.  Rule sources must be ASCII (see `crate::expert`);
//! the adapter rejects anything else before the collaborator sees it.

use vstd::prelude::*;

use crate::DeepThoughtError;
use crate::expert::{
    clone_rules, engine_execute, engine_new, fact_keys, facts_new, facts_set, grl_parses,
    knowledge_base_add_rule, knowledge_base_new, parse_rules, rules_all_ascii,
};
use crate::router::DeepThoughtRouter;

verus! {

impl DeepThoughtRouter {
    /// Parse a declarative rule source and register the rule set under
    /// `name`, replacing any previous set.  A source outside ASCII or one
    /// the rule engine cannot parse is a collaborator parse error and
    /// registers nothing.
    pub fn new_rules(&mut self, name: &str, value: &str) -> (r: Result<(), DeepThoughtError>)
        requires
            old(self).wf(),
        ensures
            final(self).wf(),
            r is Ok <==> (value.is_ascii() && grl_parses(value@)),
            r matches Err(e) ==> e is Collaborator && *final(self) == *old(self),
            r is Ok ==> final(self).rules.contains_key(name@),
            forall|k: Seq<char>|
                k != name@ ==> final(self).rules.spec_get(k) == old(self).rules.spec_get(k),
            final(self).facts == old(self).facts,
            final(self).routes == old(self).routes,
            final(self).ctx_routes == old(self).ctx_routes,
            final(self).sessions == old(self).sessions,
            final(self).catalog == old(self).catalog,
    {
        if !value.is_ascii() {
            return Err(
                DeepThoughtError::Collaborator("Rule source must be ASCII".to_owned()),
            );
        }
        let rules = match parse_rules(value) {
            Ok(rules) => rules,
            Err(e) => {
                return Err(DeepThoughtError::Collaborator(e));
            },
        };
        self.rules.insert(name, rules);
        Ok(())
    }

    /// A copy of the rule set registered under `name`; an unknown name is
    /// not found.
    pub fn get_rules(&self, name: &str) -> (r: Result<
        Vec<rust_rule_engine::Rule>,
        DeepThoughtError,
    >)
        requires
            self.wf(),
        ensures
            r is Ok <==> self.rules.contains_key(name@),
            r matches Err(e) ==> e is NotFound,
            r matches Ok(v) ==> v@.len() == self.rules.spec_get(name@)->Some_0@.len()
                && rules_all_ascii(v@),
    {
        match self.rules.get(name) {
            Some(rules) => Ok(clone_rules(rules)),
            None => Err(DeepThoughtError::NotFound("No rules found".to_owned())),
        }
    }

    /// The fact collection under `name`, created empty on first access.
    pub fn facts_collection(&mut self, name: &str) -> (r: Result<(), DeepThoughtError>)
        requires
            old(self).wf(),
        ensures
            r is Ok,
            final(self).wf(),
            final(self).facts.contains_key(name@),
            old(self).facts.contains_key(name@) ==> *final(self) == *old(self),
            !old(self).facts.contains_key(name@) ==> (final(self).facts.spec_get(
                name@,
            ) matches Some(f) && fact_keys(f) == Set::<Seq<char>>::empty()),
            forall|k: Seq<char>|
                k != name@ ==> final(self).facts.spec_get(k) == old(self).facts.spec_get(k),
            final(self).rules == old(self).rules,
            final(self).routes == old(self).routes,
            final(self).ctx_routes == old(self).ctx_routes,
            final(self).sessions == old(self).sessions,
            final(self).catalog == old(self).catalog,
    {
        if !self.facts.contains(name) {
            self.facts.insert(name, facts_new());
        }
        Ok(())
    }

    /// The fact collection under `name`; an unknown name is not found.
    pub fn get_facts(&self, name: &str) -> (r: Result<&rust_rule_engine::Facts, DeepThoughtError>)
        requires
            self.wf(),
        ensures
            match r {
                Ok(f) => self.facts.spec_get(name@) == Some(*f),
                Err(e) => e is NotFound && self.facts.spec_get(name@) is None,
            },
    {
        match self.facts.get(name) {
            Some(facts) => Ok(facts),
            None => Err(DeepThoughtError::NotFound("No facts found".to_owned())),
        }
    }

    /// Bind `key` to `value` in the fact collection under `name`; an
    /// unknown collection is not found.
    pub fn new_fact(&mut self, name: &str, key: &str, value: rust_rule_engine::Value) -> (r: Result<
        (),
        DeepThoughtError,
    >)
        requires
            old(self).wf(),
        ensures
            final(self).wf(),
            r is Ok <==> old(self).facts.contains_key(name@),
            r matches Err(e) ==> e is NotFound && *final(self) == *old(self),
            old(self).facts.spec_get(name@) matches Some(f) ==> (final(self).facts.spec_get(
                name@,
            ) matches Some(g) && fact_keys(g) == fact_keys(f).insert(key@)),
            forall|k: Seq<char>|
                k != name@ ==> final(self).facts.spec_get(k) == old(self).facts.spec_get(k),
            final(self).rules == old(self).rules,
            final(self).routes == old(self).routes,
            final(self).ctx_routes == old(self).ctx_routes,
            final(self).sessions == old(self).sessions,
            final(self).catalog == old(self).catalog,
    {
        match self.facts.take(name) {
            Some(mut facts) => {
                facts_set(&mut facts, key, value);
                self.facts.insert(name, facts);
                Ok(())
            },
            None => Err(DeepThoughtError::NotFound("No facts found".to_owned())),
        }
    }

    /// Load the named rule set and the named fact collection and run the
    /// rule engine over them.  Execution may mutate the fact collection in
    /// place; the adapter reports only that execution completed or failed,
    /// and touches nothing but that one collection.
    pub fn expert_system(&mut self, rules: &str, facts: &str) -> (r: Result<(), DeepThoughtError>)
        requires
            old(self).wf(),
        ensures
            final(self).wf(),
            !old(self).rules.contains_key(rules@) ==> (r matches Err(e) && e is NotFound && *final(self) == *old(self)),
            old(self).rules.contains_key(rules@) && !old(self).facts.contains_key(facts@) ==> (
            r matches Err(e) && e is NotFound && *final(self) == *old(self)),
            old(self).rules.contains_key(rules@) && old(self).facts.contains_key(facts@) ==> (
            r is Ok || (r matches Err(e) && e is Collaborator)),
            final(self).facts.contains_key(facts@) == old(self).facts.contains_key(facts@),
            forall|k: Seq<char>|
                k != facts@ ==> final(self).facts.spec_get(k) == old(self).facts.spec_get(k),
            final(self).rules == old(self).rules,
            final(self).routes == old(self).routes,
            final(self).ctx_routes == old(self).ctx_routes,
            final(self).sessions == old(self).sessions,
            final(self).catalog == old(self).catalog,
            final(self).embed_model == old(self).embed_model,
            final(self).prompt_model == old(self).prompt_model,
            final(self).query_preference == old(self).query_preference,
            final(self).embedding_query_prefix == old(self).embedding_query_prefix,
    {
        let rule_list = match self.get_rules(rules) {
            Ok(rule_list) => rule_list,
            Err(e) => {
                return Err(e);
            },
        };
        let mut fact_values = match self.facts.take(facts) {
            Some(fact_values) => fact_values,
            None => {
                return Err(DeepThoughtError::NotFound("No facts found".to_owned()));
            },
        };
        let mut kb = knowledge_base_new(self.knowledge_base_name.as_str());
        let n = rule_list.len();
        let mut failed: Option<String> = None;
        let mut i: usize = 0;
        while i < n
            invariant
                i <= n,
                n == rule_list@.len(),
                rules_all_ascii(rule_list@),
                crate::expert::kb_rules_ascii(kb),
            decreases n - i,
        {
            if failed.is_none() {
                match knowledge_base_add_rule(&mut kb, crate::expert::clone_rule(&rule_list[i])) {
                    Ok(_) => {},
                    Err(e) => {
                        failed = Some(e);
                    },
                }
            }
            i = i + 1;
        }
        match failed {
            Some(e) => {
                self.facts.insert(facts, fact_values);
                Err(DeepThoughtError::Collaborator(e))
            },
            None => {
                let mut engine = engine_new(kb);
                let result = engine_execute(&mut engine, &mut fact_values);
                self.facts.insert(facts, fact_values);
                match result {
                    Ok(_) => Ok(()),
                    Err(e) => Err(DeepThoughtError::Collaborator(e)),
                }
            },
        }
    }
}

} // verus!
