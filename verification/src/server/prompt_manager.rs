//! The prompts of a server.
use vstd::prelude::*;

use crate::error::McpError;
use crate::string_map;
use crate::string_map::StringMap;
use crate::text;
use crate::types::prompts::{ListPromptsResult, PromptInfo};
use crate::wire::Wire;

verus! {

/// A prompt of a server. `H` is what runs when it is asked for.
#[derive(Clone)]
pub struct PromptEntry<H> {
    pub info: PromptInfo,
    pub handler: H,
}

/// The prompts of a server, by their names.
pub struct PromptManager<H> {
    overwrite: bool,
    prompts: StringMap<PromptEntry<H>>,
}

impl<H> PromptManager<H> {
    /// The prompts.
    pub closed spec fn view(&self) -> Map<Seq<char>, PromptEntry<H>> {
        self.prompts@
    }

    /// The names, in increasing order.
    pub closed spec fn order(&self) -> Seq<Seq<char>> {
        self.prompts.order()
    }

    /// Whether a prompt may take the place of another of its name.
    pub closed spec fn may_overwrite(&self) -> bool {
        self.overwrite
    }

    /// No prompts yet.
    pub fn new(overwrite: bool) -> (r: Self)
        ensures
            r@ == Map::<Seq<char>, PromptEntry<H>>::empty(),
            r.may_overwrite() == overwrite,
    {
        PromptManager { overwrite, prompts: StringMap::new() }
    }

    /// How many prompts there are.
    pub fn len(&self) -> (r: usize)
        ensures
            r == self@.dom().len(),
            self@.dom().finite(),
            r == self.order().len(),
            string_map::increasing(self.order()),
            self.order().to_set() == self@.dom(),
    {
        self.prompts.len()
    }

    /// Tells whether there are no prompts.
    pub fn is_empty(&self) -> (r: bool)
        ensures
            r == (self@.dom().len() == 0),
            self@.dom().finite(),
    {
        self.prompts.is_empty()
    }

    /// Adds a prompt, which must have a name.
    pub fn add_prompt(&mut self, prompt: PromptInfo, handler: H) -> (r: Result<(), McpError>)
        ensures
            final(self).may_overwrite() == old(self).may_overwrite(),
            r is Err <==> prompt.name@.len() == 0 || (old(self)@.dom().contains(prompt.name@)
                && !old(self).may_overwrite()),
            match r {
                Ok(()) => final(self)@ == old(self)@.insert(
                    prompt.name@,
                    PromptEntry { info: prompt, handler },
                ),
                Err(e) => final(self)@ == old(self)@ && if prompt.name@.len() == 0 {
                    e.faults_argument("Prompt name cannot be empty"@)
                } else {
                    e.faults_state("Prompt already exists: "@ + prompt.name@)
                },
            },
    {
        if prompt.name.as_str().is_empty() {
            return Err(McpError::argument("Prompt name cannot be empty".to_owned()));
        }
        if !self.overwrite && self.prompts.contains_key(prompt.name.as_str()) {
            return Err(
                McpError::state(text::cat2("Prompt already exists: ", prompt.name.as_str())),
            );
        }
        let name = prompt.name.clone();
        let _ = self.prompts.insert(name, PromptEntry { info: prompt, handler });
        Ok(())
    }

    /// Takes out a prompt, if it is there.
    pub fn remove_prompt(&mut self, name: &str)
        ensures
            final(self)@ == old(self)@.remove(name@),
            final(self).may_overwrite() == old(self).may_overwrite(),
    {
        let _ = self.prompts.remove(name);
    }

    /// All prompts, in the order of their names.
    pub fn list_prompts(&self) -> (r: ListPromptsResult)
        ensures
            string_map::increasing(self.order()),
            self.order().to_set() == self@.dom(),
            r.prompts@.len() == self.order().len(),
            forall|i: int|
                0 <= i < r.prompts@.len() ==> (#[trigger] r.prompts@[i]).wire()
                    == self@[self.order()[i]].info.wire(),
            r.next_cursor is None,
            r.meta is None,
    {
        let len: usize = self.prompts.len();
        let mut prompts: Vec<PromptInfo> = Vec::new();
        let mut i: usize = 0;
        while i < len
            invariant
                i <= len,
                len == self.order().len(),
                prompts@.len() == i,
                forall|k: int|
                    0 <= k < i ==> (#[trigger] prompts@[k]).wire()
                        == self@[self.order()[k]].info.wire(),
            decreases len - i,
        {
            let p = self.prompts.value_at(i).info.duplicate();
            prompts.push(p);
            i = i + 1;
        }
        ListPromptsResult { prompts, next_cursor: None, meta: None }
    }

    /// What runs when the prompt of a name is asked for.
    pub fn get_prompt(&self, name: &str) -> (r: Result<&H, McpError>)
        ensures
            match r {
                Ok(h) => self@.dom().contains(name@) && *h == self@[name@].handler,
                Err(e) => !self@.dom().contains(name@) && e.faults_state(
                    "Prompt not found: "@ + name@,
                ),
            },
    {
        match self.prompts.get(name) {
            Some(p) => Ok(&p.handler),
            None => Err(McpError::state(text::cat2("Prompt not found: ", name))),
        }
    }
}

impl<H> Default for PromptManager<H> {
    fn default() -> (r: Self)
        ensures
            r@ == Map::<Seq<char>, PromptEntry<H>>::empty(),
            r.may_overwrite(),
    {
        PromptManager::new(true)
    }
}

} // verus!
