//! Synthesis of the single message every model round trip sends: an opaque
//! instruction text combined with the caller's context.

use vstd::prelude::*;
use crate::agent_traits::RouteObject;
use crate::llm::Message;

verus! {

/// One frontend source file as persisted at its fixed relative location.
#[derive(Debug, PartialEq)]
pub struct SavedFile {
    pub path: String,
    pub code: String,
}

/// The durable interchange artifacts the stages hand off through: the
/// starter code template, the latest backend source, the persisted route
/// schema, and the per-component frontend sources. Downstream steps read
/// the latest stored value, never an in-memory copy.
#[derive(Debug, PartialEq)]
pub struct Workspace {
    pub code_template: String,
    pub backend_code: Option<String>,
    pub api_schema: Option<Vec<RouteObject>>,
    pub frontend_files: Vec<SavedFile>,
}

impl Workspace {
    /// A workspace holding only the starter template.
    pub fn new(code_template: String) -> (r: Workspace)
        ensures
            r.code_template == code_template,
            r.backend_code is None,
            r.api_schema is None,
            r.frontend_files@ == Seq::<SavedFile>::empty(),
    {
        Workspace { code_template, backend_code: None, api_schema: None, frontend_files: Vec::new() }
    }

    /// Overwrites the stored backend source.
    pub fn save_backend_code(&mut self, contents: String)
        ensures
            final(self).backend_code == Some(contents),
            final(self).code_template == old(self).code_template,
            final(self).api_schema == old(self).api_schema,
            final(self).frontend_files == old(self).frontend_files,
    {
        self.backend_code = Some(contents);
    }

    /// Overwrites the persisted route schema.
    pub fn save_api_endpoints(&mut self, schema: Vec<RouteObject>)
        ensures
            final(self).api_schema == Some(schema),
            final(self).code_template == old(self).code_template,
            final(self).backend_code == old(self).backend_code,
            final(self).frontend_files == old(self).frontend_files,
    {
        self.api_schema = Some(schema);
    }

    /// Stores one frontend source file at its path. A later save to the
    /// same path shadows the earlier one.
    pub fn save_frontend_code(&mut self, path: String, code: String)
        ensures
            final(self).frontend_files@ == old(self).frontend_files@.push(
                SavedFile { path, code },
            ),
            final(self).code_template == old(self).code_template,
            final(self).backend_code == old(self).backend_code,
            final(self).api_schema == old(self).api_schema,
    {
        self.frontend_files.push(SavedFile { path, code });
    }

    /// The latest source stored for a path, if any.
    pub fn read_frontend_code(&self, path: &str) -> (r: Option<String>)
        ensures
            match r {
                Some(code) => spec_read_frontend_code(self.frontend_files@, path@) is Some
                    && code@ == spec_read_frontend_code(self.frontend_files@, path@).unwrap(),
                None => spec_read_frontend_code(self.frontend_files@, path@) is None,
            },
    {
        let mut i: usize = self.frontend_files.len();
        proof {
            assert(self.frontend_files@.take(i as int) =~= self.frontend_files@);
        }
        while i > 0
            invariant
                i <= self.frontend_files@.len(),
                spec_read_frontend_code(self.frontend_files@, path@)
                    == spec_read_frontend_code(self.frontend_files@.take(i as int), path@),
            decreases i,
        {
            i = i - 1;
            proof {
                assert(self.frontend_files@.take(i + 1).drop_last()
                    =~= self.frontend_files@.take(i as int));
                assert(self.frontend_files@.take(i + 1).last()
                    == self.frontend_files@[i as int]);
            }
            if self.frontend_files[i].path == String::from_str(path) {
                return Some(self.frontend_files[i].code.clone());
            }
        }
        proof {
            assert(self.frontend_files@.take(0) =~= Seq::<SavedFile>::empty());
        }
        None
    }
}

/// The latest source stored for a path: the last matching entry wins.
pub open spec fn spec_read_frontend_code(files: Seq<SavedFile>, path: Seq<char>) -> Option<
    Seq<char>,
>
    decreases files.len(),
{
    if files.len() == 0 {
        None
    } else if files.last().path@ == path {
        Some(files.last().code@)
    } else {
        spec_read_frontend_code(files.drop_last(), path)
    }
}

/// A model answer that may or may not have survived structured decoding.
#[derive(Debug)]
pub enum AIFuncResponse<T> {
    Decoded(T),
    Raw(String),
}

/// The text that precedes the instruction text.
pub open spec fn prompt_preamble() -> Seq<char> {
    "FUNCTION: "@
}

/// The framing between the instruction text and the caller's input.
pub open spec fn prompt_framing() -> Seq<char> {
    "\nINSTRUCTION: You are a function printer. You only print the results of functions. Nothing else. No commentary. Here is the input to the function: '"@
}

/// The closing demand after the caller's input.
pub open spec fn prompt_closing() -> Seq<char> {
    "'. Print out what the function will return."@
}

/// The full synthesized prompt for one instruction text and one input.
pub open spec fn spec_extended_prompt(ai_function_str: Seq<char>, func_input: Seq<char>) -> Seq<
    char,
> {
    prompt_preamble() + ai_function_str + prompt_framing() + func_input + prompt_closing()
}

/// Combines an instruction text with its input into the one system message
/// a model round trip sends, demanding a program-like printout and nothing
/// else.
pub fn extend_ai_function(ai_function_str: &str, func_input: &str) -> (msg: Message)
    ensures
        msg.role@ == "system"@,
        msg.content@ == spec_extended_prompt(ai_function_str@, func_input@),
{
    let content: String = String::from_str("FUNCTION: ").concat(ai_function_str).concat(
        "\nINSTRUCTION: You are a function printer. You only print the results of functions. Nothing else. No commentary. Here is the input to the function: '",
    ).concat(func_input).concat("'. Print out what the function will return.");
    Message { role: String::from_str("system"), content }
}

} // verus!
