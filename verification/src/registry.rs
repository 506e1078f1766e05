//! The registry of indexer functions: for each account, the functions it has
//! registered, each with the rule that selects its blocks.

use crate::text::{option_view, same_text};
use crate::types::indexer_rule::{IndexerRule, IndexerRuleView};
use vstd::prelude::*;

verus! {

/// A registered indexer function.
#[derive(Clone, Debug, PartialEq, Eq)]
pub struct IndexerFunction {
    pub account_id: String,
    pub function_name: String,
    pub code: String,
    pub start_block_height: Option<u64>,
    pub schema: Option<String>,
    pub provisioned: bool,
    pub indexer_rule: IndexerRule,
}

/// The mathematical content of an `IndexerFunction`.
pub struct IndexerFunctionView {
    pub account_id: Seq<char>,
    pub function_name: Seq<char>,
    pub code: Seq<char>,
    pub start_block_height: Option<u64>,
    pub schema: Option<Seq<char>>,
    pub provisioned: bool,
    pub indexer_rule: IndexerRuleView,
}

impl View for IndexerFunction {
    type V = IndexerFunctionView;

    open spec fn view(&self) -> IndexerFunctionView {
        IndexerFunctionView {
            account_id: self.account_id@,
            function_name: self.function_name@,
            code: self.code@,
            start_block_height: self.start_block_height,
            schema: option_view(self.schema),
            provisioned: self.provisioned,
            indexer_rule: self.indexer_rule@,
        }
    }
}

/// The mathematical content of a list of functions.
pub open spec fn functions_view(functions: Seq<IndexerFunction>) -> Seq<IndexerFunctionView> {
    functions.map_values(|function: IndexerFunction| function@)
}

/// How an attempt to mark a function as provisioned ended.
#[derive(Clone, Copy, Debug, PartialEq, Eq)]
pub enum Provisioning {
    /// The function is registered, and is marked now.
    Marked,
    /// The account has functions, but none of that name.
    UnknownFunction,
    /// The account has no function at all.
    UnknownAccount,
}

/// The functions of all accounts. No two of them share both account and name.
pub struct IndexerRegistry {
    functions: Vec<IndexerFunction>,
}

/// Whether no two of `functions` share both account and name.
pub open spec fn distinct_names(functions: Seq<IndexerFunctionView>) -> bool {
    forall|i: int, j: int|
        0 <= i < j < functions.len() ==> !(#[trigger] functions[i]).is_named(
            (#[trigger] functions[j]).account_id,
            functions[j].function_name,
        )
}

impl IndexerFunctionView {
    /// Whether this is the function `function_name` of the account `account_id`.
    pub open spec fn is_named(self, account_id: Seq<char>, function_name: Seq<char>) -> bool {
        self.account_id == account_id && self.function_name == function_name
    }

    /// The function, marked as provisioned.
    pub open spec fn marked(self) -> IndexerFunctionView {
        IndexerFunctionView { provisioned: true, ..self }
    }

    /// The name under which the function is known outside its account: the account,
    /// a slash, and the function's own name.
    pub open spec fn full_name(self) -> Seq<char> {
        self.account_id + "/"@ + self.function_name
    }
}

impl IndexerFunction {
    /// The account, a slash, and the function's own name.
    pub fn get_full_name(&self) -> (name: String)
        ensures
            name@ == self@.full_name(),
    {
        let mut name = self.account_id.clone();
        name.append("/");
        name.append(self.function_name.as_str());
        name
    }
}

impl IndexerRegistry {
    #[verifier::type_invariant]
    spec fn names_are_distinct(self) -> bool {
        distinct_names(functions_view(self.functions@))
    }

    /// The registered functions, in the order in which their names first came in.
    pub closed spec fn entries(self) -> Seq<IndexerFunctionView> {
        functions_view(self.functions@)
    }

    /// Whether the function `function_name` of `account_id` stands at place `i`.
    pub open spec fn holds_at(self, account_id: Seq<char>, function_name: Seq<char>, i: int) -> bool {
        0 <= i < self.entries().len() && self.entries()[i].is_named(account_id, function_name)
    }

    /// Whether the function `function_name` of `account_id` is registered.
    pub open spec fn has_function(self, account_id: Seq<char>, function_name: Seq<char>) -> bool {
        exists|i: int| self.holds_at(account_id, function_name, i)
    }

    /// Whether `account_id` has registered a function.
    pub open spec fn has_account(self, account_id: Seq<char>) -> bool {
        exists|i: int|
            0 <= i < self.entries().len() && (#[trigger] self.entries()[i]).account_id
                == account_id
    }

    /// A registry without functions.
    pub fn new() -> (registry: IndexerRegistry)
        ensures
            registry.entries() == Seq::<IndexerFunctionView>::empty(),
    {
        let registry = IndexerRegistry { functions: Vec::new() };
        assert(registry.entries() =~= Seq::<IndexerFunctionView>::empty());
        registry
    }

    /// The registered functions, in the order of `entries`. No two of them share
    /// both account and name.
    pub fn functions(&self) -> (functions: &Vec<IndexerFunction>)
        ensures
            functions_view(functions@) == self.entries(),
            distinct_names(functions_view(functions@)),
    {
        proof {
            use_type_invariant(self);
        }
        &self.functions
    }

    fn position(&self, account_id: &str, function_name: &str) -> (found: Option<usize>)
        ensures
            match found {
                Some(i) => i < self.functions@.len() && self.holds_at(
                    account_id@,
                    function_name@,
                    i as int,
                ),
                None => !self.has_function(account_id@, function_name@),
            },
    {
        let mut i: usize = 0;
        while i < self.functions.len()
            invariant
                i <= self.functions@.len(),
                forall|k: int| 0 <= k < i ==> !self.holds_at(account_id@, function_name@, k),
            decreases self.functions@.len() - i,
        {
            assert(self.entries()[i as int] == self.functions@[i as int]@);
            if same_text(self.functions[i].account_id.as_str(), account_id) && same_text(
                self.functions[i].function_name.as_str(),
                function_name,
            ) {
                return Some(i);
            }
            i = i + 1;
        }
        None
    }

    /// The function `function_name` of `account_id`, if it is registered.
    pub fn get(&self, account_id: &str, function_name: &str) -> (found: Option<&IndexerFunction>)
        ensures
            found is Some == self.has_function(account_id@, function_name@),
            found matches Some(function) ==> exists|i: int|
                self.holds_at(account_id@, function_name@, i) && self.entries()[i] == function@,
    {
        match self.position(account_id, function_name) {
            Some(i) => {
                assert(self.entries()[i as int] == self.functions@[i as int]@);
                Some(&self.functions[i])
            },
            None => None,
        }
    }

    /// Whether `account_id` has registered a function.
    pub fn knows_account(&self, account_id: &str) -> (known: bool)
        ensures
            known == self.has_account(account_id@),
    {
        let mut i: usize = 0;
        while i < self.functions.len()
            invariant
                i <= self.functions@.len(),
                forall|k: int| 0 <= k < i ==> self.entries()[k].account_id != account_id@,
            decreases self.functions@.len() - i,
        {
            assert(self.entries()[i as int] == self.functions@[i as int]@);
            if same_text(self.functions[i].account_id.as_str(), account_id) {
                return true;
            }
            i = i + 1;
        }
        false
    }

    /// Registers `function`. A function of the same account and name that was
    /// registered before makes way for it, and is handed back.
    pub fn insert(&mut self, function: IndexerFunction) -> (replaced: Option<IndexerFunction>)
        ensures
            replaced is Some == old(self).has_function(
                function.account_id@,
                function.function_name@,
            ),
            match replaced {
                Some(previous) => exists|i: int|
                    old(self).holds_at(function.account_id@, function.function_name@, i) && old(
                        self,
                    ).entries()[i] == previous@ && final(self).entries() == old(
                        self,
                    ).entries().update(i, function@),
                None => final(self).entries() == old(self).entries().push(function@),
            },
    {
        proof {
            use_type_invariant(&*self);
        }
        let ghost before = self.entries();
        let found = self.position(function.account_id.as_str(), function.function_name.as_str());
        let mut functions = Vec::new();
        std::mem::swap(&mut functions, &mut self.functions);
        assert(functions_view(functions@) == before);
        match found {
            Some(i) => {
                let ghost added = function@;
                functions.push(function);
                let previous = functions.swap_remove(i);
                assert(functions_view(functions@) =~= before.update(i as int, added));
                assert(previous@ == before[i as int]);
                assert(distinct_names(functions_view(functions@))) by {
                    let after = functions_view(functions@);
                    assert forall|a: int, b: int| 0 <= a < b < after.len() implies !(
                    #[trigger] after[a]).is_named(
                        (#[trigger] after[b]).account_id,
                        after[b].function_name,
                    ) by {
                        assert(before[i as int].is_named(added.account_id, added.function_name));
                        if a == i {
                            assert(after[b] == before[b]);
                        } else if b == i {
                            assert(after[a] == before[a]);
                        } else {
                            assert(after[a] == before[a] && after[b] == before[b]);
                        }
                    }
                }
                self.functions = functions;
                Some(previous)
            },
            None => {
                let ghost added = function@;
                assert(distinct_names(before.push(added))) by {
                    assert forall|a: int, b: int| 0 <= a < b < before.len() + 1 implies !(
                    #[trigger] before.push(added)[a]).is_named(
                        (#[trigger] before.push(added)[b]).account_id,
                        before.push(added)[b].function_name,
                    ) by {
                        if b == before.len() {
                            assert(!old(self).holds_at(added.account_id, added.function_name, a));
                        }
                    }
                }
                functions.push(function);
                assert(functions_view(functions@) =~= before.push(added));
                self.functions = functions;
                None
            },
        }
    }

    /// Marks the function `function_name` of `account_id` as provisioned. Where no
    /// such function is registered, the registry stays as it is, and the answer says
    /// whether the account is known at all.
    pub fn set_provisioned_flag(&mut self, account_id: &str, function_name: &str) -> (outcome:
        Provisioning)
        ensures
            outcome is Marked == old(self).has_function(account_id@, function_name@),
            outcome is UnknownAccount == !old(self).has_account(account_id@),
            outcome is Marked ==> exists|i: int|
                old(self).holds_at(account_id@, function_name@, i) && final(self).entries() == old(
                    self,
                ).entries().update(i, old(self).entries()[i].marked()),
            !(outcome is Marked) ==> final(self).entries() == old(self).entries(),
    {
        proof {
            use_type_invariant(&*self);
        }
        let ghost before = self.entries();
        match self.position(account_id, function_name) {
            Some(i) => {
                let mut functions = Vec::new();
                std::mem::swap(&mut functions, &mut self.functions);
                assert(functions_view(functions@) == before);
                functions[i].provisioned = true;
                let ghost after = functions_view(functions@);
                assert(after =~= before.update(i as int, before[i as int].marked()));
                assert(distinct_names(after)) by {
                    assert forall|a: int, b: int| 0 <= a < b < after.len() implies !(
                    #[trigger] after[a]).is_named(
                        (#[trigger] after[b]).account_id,
                        after[b].function_name,
                    ) by {
                        assert(after[a].account_id == before[a].account_id);
                        assert(after[a].function_name == before[a].function_name);
                        assert(after[b].account_id == before[b].account_id);
                        assert(after[b].function_name == before[b].function_name);
                    }
                }
                self.functions = functions;
                assert(old(self).has_account(account_id@)) by {
                    assert(old(self).entries()[i as int].account_id == account_id@);
                }
                Provisioning::Marked
            },
            None => {
                if self.knows_account(account_id) {
                    Provisioning::UnknownFunction
                } else {
                    Provisioning::UnknownAccount
                }
            },
        }
    }
}

} // verus!
