use vstd::prelude::*;
use vstd::string::{StrSliceExecFns, StringExecFns};
use crate::errors::PipelineError;

verus! {

// The suggestion orchestrator is a capability boundary: a real language
// model backend would stand behind `generate_stream`. The build here
// carries a deterministic stub backend with the same contract. Template
// selection and prompt assembly around the backend are verified exactly:
// an unknown role falls back to the general template, and the fallback
// itself can never fail.

/// Configuration of the generation backend. The temperature is in
/// thousandths (700 stands for 0.7).
#[derive(Debug)]
pub struct ModelConfig {
    pub model_path: String,
    pub context_size: usize,
    pub temperature_milli: u32,
    pub max_tokens: u16,
}

/// A role-specific prompt template.
#[derive(Debug)]
pub struct PromptTemplate {
    pub system_prompt: String,
    pub user_template: String,
    pub safety_prefix: String,
}

/// The terminal artifact of one generation: accumulated content, a
/// completion flag, and a token count. Content is append-only across a
/// stream's lifetime; the stub backend emits only completed streams.
#[derive(Debug)]
pub struct TokenStream {
    pub content: String,
    pub is_complete: bool,
    pub token_count: usize,
}

/// The suggestion orchestrator: holds the generation configuration, the
/// role-to-template table, and the loaded flag of the backend.
pub struct LLMOrchestrator {
    config: ModelConfig,
    loaded: bool,
    prompt_templates: Vec<(String, PromptTemplate)>,
    last_context: Option<String>,
}

/// The safety pre-prompt prepended to every generation.
pub open spec fn spec_safety_prefix() -> Seq<char> {
    "CRITICAL: You are a privacy-first meeting assistant. NEVER suggest recording calls, joining meetings, or sharing sensitive data externally. If exam/proctoring context detected, immediately pause and inform user. Respect all privacy guardrails."@
}

pub open spec fn spec_sales_system() -> Seq<char> {
    "You're an expert sales assistant. Help with objection handling, competitive positioning, and next steps. Focus on: customer pain points, value propositions, closing techniques. Keep responses under 2 lines for real-time use."@
}

pub open spec fn spec_general_system() -> Seq<char> {
    "You are a helpful meeting assistant. Provide brief, relevant suggestions grounded in the recent conversation. Keep responses under 2 lines for real-time use."@
}

pub open spec fn spec_user_template() -> Seq<char> {
    "{context}\n\nUser query: {query}"@
}

/// The system prompt selected for a role: role-specific when the role is
/// known, the general one otherwise. Total, so the fallback cannot fail.
pub open spec fn spec_system_for_role(role: Seq<char>) -> Seq<char> {
    if role == "sales"@ {
        spec_sales_system()
    } else {
        spec_general_system()
    }
}

/// The full prompt handed to the backend for a role and a routed prompt.
pub open spec fn spec_full_prompt(role: Seq<char>, prompt: Seq<char>) -> Seq<char> {
    spec_safety_prefix() + "\n\n"@ + spec_system_for_role(role) + "\n\n"@ + prompt
}

/// The stub backend's fixed completed stream.
pub open spec fn spec_stub_content() -> Seq<char> {
    "Generated suggestion based on context"@
}

fn str_eq(a: &str, b: &str) -> (r: bool)
    ensures
        r == (a@ == b@),
{
    let a_len: usize = a.unicode_len();
    let b_len: usize = b.unicode_len();
    if a_len != b_len {
        proof {
            if a@ == b@ {
                assert(a@.len() == b@.len());
            }
        }
        return false;
    }
    let mut i: usize = 0;
    while i < a_len
        invariant
            a_len == a@.len(),
            a_len == b@.len(),
            i <= a_len,
            forall|k: int| 0 <= k < i ==> a@[k] == b@[k],
        decreases a_len - i,
    {
        if a.get_char(i) != b.get_char(i) {
            return false;
        }
        i = i + 1;
    }
    proof {
        assert(a@ =~= b@);
    }
    true
}

impl LLMOrchestrator {
    /// The orchestrator's template table is exactly the fixed one: the
    /// sales template first, the general fallback second.
    pub closed spec fn wf(&self) -> bool {
        &&& self.prompt_templates@.len() == 2
        &&& self.prompt_templates@[0].0@ == "sales"@
        &&& template_matches(self.prompt_templates@[0].1, spec_sales_system())
        &&& self.prompt_templates@[1].0@ == "general"@
        &&& template_matches(self.prompt_templates@[1].1, spec_general_system())
    }

    pub closed spec fn spec_loaded(&self) -> bool {
        self.loaded
    }

    pub closed spec fn spec_last_context(&self) -> Option<String> {
        self.last_context
    }

    /// An orchestrator over the given configuration, with the fixed
    /// template table and the backend not yet loaded.
    pub fn new(config: ModelConfig) -> (r: LLMOrchestrator)
        ensures
            r.wf(),
            !r.spec_loaded(),
            r.spec_last_context() is None,
    {
        let mut templates: Vec<(String, PromptTemplate)> = Vec::new();
        templates.push(
            (
                String::from_str("sales"),
                PromptTemplate {
                    system_prompt: String::from_str(
                        "You're an expert sales assistant. Help with objection handling, competitive positioning, and next steps. Focus on: customer pain points, value propositions, closing techniques. Keep responses under 2 lines for real-time use.",
                    ),
                    user_template: String::from_str("{context}\n\nUser query: {query}"),
                    safety_prefix: String::from_str(
                        "CRITICAL: You are a privacy-first meeting assistant. NEVER suggest recording calls, joining meetings, or sharing sensitive data externally. If exam/proctoring context detected, immediately pause and inform user. Respect all privacy guardrails.",
                    ),
                },
            ),
        );
        templates.push(
            (
                String::from_str("general"),
                PromptTemplate {
                    system_prompt: String::from_str(
                        "You are a helpful meeting assistant. Provide brief, relevant suggestions grounded in the recent conversation. Keep responses under 2 lines for real-time use.",
                    ),
                    user_template: String::from_str("{context}\n\nUser query: {query}"),
                    safety_prefix: String::from_str(
                        "CRITICAL: You are a privacy-first meeting assistant. NEVER suggest recording calls, joining meetings, or sharing sensitive data externally. If exam/proctoring context detected, immediately pause and inform user. Respect all privacy guardrails.",
                    ),
                },
            ),
        );
        LLMOrchestrator { config, loaded: false, prompt_templates: templates, last_context: None }
    }

    /// One-time backend acquisition; idempotent.
    pub fn load_model(&mut self) -> (r: Result<(), PipelineError>)
        ensures
            r is Ok,
            final(self).spec_loaded(),
            final(self).wf() == old(self).wf(),
            final(self).spec_last_context() == old(self).spec_last_context(),
    {
        self.loaded = true;
        Ok(())
    }

    /// The template for a role; an unknown role falls back to the general
    /// template, and the fallback never fails.
    fn select_template(&self, role: &str) -> (t: &PromptTemplate)
        requires
            self.wf(),
        ensures
            t.system_prompt@ == spec_system_for_role(role@),
            t.safety_prefix@ == spec_safety_prefix(),
    {
        let mut i: usize = 0;
        while i < self.prompt_templates.len()
            invariant
                self.wf(),
                i <= 2,
                i >= 1 ==> role@ != "sales"@,
                i >= 2 ==> role@ != "general"@,
            decreases self.prompt_templates@.len() - i,
        {
            if str_eq(self.prompt_templates[i].0.as_str(), role) {
                return &self.prompt_templates[i].1;
            }
            i = i + 1;
        }
        &self.prompt_templates[1].1
    }

    /// The full prompt the backend is handed for a role and a routed
    /// prompt: safety prefix, role system prompt, then the prompt.
    pub fn build_full_prompt(&self, prompt: &str, role: &str) -> (r: String)
        requires
            self.wf(),
        ensures
            r@ == spec_full_prompt(role@, prompt@),
    {
        let template = self.select_template(role);
        let mut full = template.safety_prefix.clone();
        full.append("\n\n");
        full.append(template.system_prompt.as_str());
        full.append("\n\n");
        full.append(prompt);
        full
    }

    /// Generate a suggestion stream for a routed prompt. Fails with
    /// `ModelNotLoaded` before `load_model`; otherwise returns the stub
    /// backend's completed stream.
    pub fn generate_stream(&self, prompt: &str, role: &str) -> (r: Result<
        TokenStream,
        PipelineError,
    >)
        requires
            self.wf(),
        ensures
            !self.spec_loaded() ==> (r matches Err(e) && e == PipelineError::ModelNotLoaded),
            self.spec_loaded() ==> (r matches Ok(ts) && ts.content@ == spec_stub_content()
                && ts.is_complete && ts.token_count == 10),
    {
        if !self.loaded {
            return Err(PipelineError::ModelNotLoaded);
        }
        // The stub backend assembles the full prompt exactly as a real
        // backend would be handed it, and then answers with its fixed
        // completed stream.
        let _ = self.build_full_prompt(prompt, role);
        Ok(
            TokenStream {
                content: String::from_str("Generated suggestion based on context"),
                is_complete: true,
                token_count: 10,
            },
        )
    }

    /// Record the context window for the next generation.
    pub fn set_context(&mut self, context: &str)
        ensures
            final(self).spec_last_context() matches Some(c) && c@ == context@,
            final(self).wf() == old(self).wf(),
            final(self).spec_loaded() == old(self).spec_loaded(),
    {
        self.last_context = Some(String::from_str(context));
    }
}

pub open spec fn template_matches(t: PromptTemplate, system: Seq<char>) -> bool {
    &&& t.system_prompt@ == system
    &&& t.user_template@ == spec_user_template()
    &&& t.safety_prefix@ == spec_safety_prefix()
}

} // verus!
