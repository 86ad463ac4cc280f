//! The text that is shown before a line is read.

use vstd::prelude::*;

verus! {

pub struct Prompt {
    prompt_str: String,
}

impl View for Prompt {
    type V = Seq<char>;

    closed spec fn view(&self) -> Seq<char> {
        self.prompt_str@
    }
}

impl Prompt {
    pub fn new(prompt_str: String) -> (prompt: Prompt)
        ensures
            prompt@ == prompt_str@,
    {
        Prompt { prompt_str }
    }

    pub fn set_prompt(&mut self, new_prompt_str: String)
        ensures
            final(self)@ == new_prompt_str@,
    {
        self.prompt_str = new_prompt_str;
    }

    pub fn get_prompt(&self) -> (prompt_str: &String)
        ensures
            prompt_str@ == self@,
    {
        &self.prompt_str
    }

    /// Hands the text out and leaves the empty text behind.
    pub fn move_prompt(&mut self) -> (prompt_str: String)
        ensures
            prompt_str@ == old(self)@,
            final(self)@ == Seq::<char>::empty(),
    {
        let mut prompt_str = String::new();
        std::mem::swap(&mut self.prompt_str, &mut prompt_str);
        prompt_str
    }
}

} // verus!
