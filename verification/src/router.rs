use vstd::prelude::*;
use vstd::string::StringExecFns;
use crate::errors::PipelineError;

verus! {

// The context router is a stateless classifier: an ordered list of pattern
// rules, first match wins, then a fixed intent-to-priority table and an
// intent-specific prompt template. The pattern matching itself is done by
// the regex crate; everything around it is verified against the name
// `regex_match_of` given to its result.

/// The conversational intent of a transcript window: a closed tag set.
#[derive(Clone, Copy, Debug, PartialEq, Eq, Structural)]
pub enum Intent {
    FollowUpQuestion,
    Definition,
    ActionItem,
    DraftReply,
    GeneralAssistance,
}

/// The context one routing decision is derived from. Built fresh per
/// decision; the optional fields are populated only when supplied, and
/// absence is a valid state, not a failure.
#[derive(Debug)]
pub struct Context {
    pub transcript_window: String,
    pub speaker_context: Option<String>,
    pub screen_context: Option<String>,
    pub meeting_metadata: Option<MeetingMetadata>,
}

#[derive(Debug)]
pub struct MeetingMetadata {
    pub participants: Vec<String>,
    pub meeting_type: String,
    pub duration_minutes: u32,
}

/// One routing outcome: the intent, its priority (1-10, 10 highest), the
/// context it came from, and the generation prompt built over it.
#[derive(Debug)]
pub struct RoutingDecision {
    pub intent: Intent,
    pub priority: u8,
    pub context: Context,
    pub suggested_prompt: String,
}

struct ClassificationRule {
    pattern: String,
    intent: Intent,
    priority: u8,
}

/// The stateless intent classifier with its fixed, ordered rule table.
pub struct StateIntentRouter {
    classification_rules: Vec<ClassificationRule>,
}

/// Whether the regular expression `pattern` matches anywhere in `text`.
/// The result of `regex::Regex::is_match`, a function of the two strings
/// alone (an uncompilable pattern counts as matching nothing).
pub uninterp spec fn regex_match_of(pattern: Seq<char>, text: Seq<char>) -> bool;

/// Relies on `regex::Regex::new` and `regex::Regex::is_match`: compiling a
/// pattern and testing a string is deterministic in the two strings; a
/// pattern that does not compile matches nothing.
#[verifier::external_body]
fn regex_is_match(pattern: &str, text: &str) -> (r: bool)
    ensures
        r == regex_match_of(pattern@, text@),
{
    match regex::Regex::new(pattern) {
        Ok(re) => re.is_match(text),
        Err(_) => false,
    }
}

/// The ordered rule table: question words before definition cues before
/// action cues. The order is part of the contract.
pub open spec fn rule_pattern(i: int) -> Seq<char> {
    if i == 0 {
        "(?i)(what|how|why|when|where)"@
    } else if i == 1 {
        "(?i)(define|what is|explain)"@
    } else {
        "(?i)(will|should|need to|action|todo)"@
    }
}

pub open spec fn rule_intent(i: int) -> Intent {
    if i == 0 {
        Intent::FollowUpQuestion
    } else if i == 1 {
        Intent::Definition
    } else {
        Intent::ActionItem
    }
}

pub const RULE_COUNT: usize = 3;

/// The fixed intent-to-priority table.
pub open spec fn spec_priority(intent: Intent) -> int {
    match intent {
        Intent::ActionItem => 9,
        Intent::Definition => 8,
        Intent::FollowUpQuestion => 7,
        Intent::DraftReply => 6,
        Intent::GeneralAssistance => 5,
    }
}

/// The intent of the first rule at or after `i` whose pattern matches;
/// `GeneralAssistance` when none does.
pub open spec fn first_matching_intent(text: Seq<char>, i: int) -> Intent
    decreases RULE_COUNT - i,
{
    if i < 0 || i >= RULE_COUNT {
        Intent::GeneralAssistance
    } else if regex_match_of(rule_pattern(i), text) {
        rule_intent(i)
    } else {
        first_matching_intent(text, i + 1)
    }
}

/// The classification of a transcript window: first matching rule wins.
pub open spec fn spec_classify(text: Seq<char>) -> Intent {
    first_matching_intent(text, 0)
}

/// A router is well formed when it carries exactly the fixed rule table in
/// order.
pub closed spec fn router_wf(r: &StateIntentRouter) -> bool {
    &&& r.classification_rules@.len() == RULE_COUNT
    &&& forall|i: int|
        0 <= i < RULE_COUNT ==> (#[trigger] r.classification_rules@[i]).pattern@ == rule_pattern(i)
            && r.classification_rules@[i].intent == rule_intent(i)
    &&& r.classification_rules@[0].priority == 7
    &&& r.classification_rules@[1].priority == 8
    &&& r.classification_rules@[2].priority == 9
}

/// The prompt template chosen per intent.
pub open spec fn spec_intent_instruction(intent: Intent) -> Seq<char> {
    match intent {
        Intent::FollowUpQuestion => "\n\nGenerate a relevant follow-up question to deepen understanding."@,
        Intent::Definition => "\n\nProvide a concise definition or explanation of the key concept mentioned."@,
        Intent::ActionItem => "\n\nExtract and format any action items or next steps mentioned."@,
        Intent::DraftReply => "\n\nSuggest a professional response or reply."@,
        Intent::GeneralAssistance => "\n\nProvide helpful context or suggestions."@,
    }
}

/// The generation prompt over a context: the transcript window framed by
/// the intent's template. Absent optional context degrades to this generic
/// form rather than failing.
pub open spec fn spec_prompt(intent: Intent, transcript_window: Seq<char>) -> Seq<char> {
    "Recent conversation: "@ + transcript_window + spec_intent_instruction(intent)
}

impl StateIntentRouter {
    /// A router carrying the fixed, ordered rule table.
    pub fn new() -> (r: StateIntentRouter)
        ensures
            router_wf(&r),
    {
        let mut rules: Vec<ClassificationRule> = Vec::new();
        rules.push(
            ClassificationRule {
                pattern: String::from_str("(?i)(what|how|why|when|where)"),
                intent: Intent::FollowUpQuestion,
                priority: 7,
            },
        );
        rules.push(
            ClassificationRule {
                pattern: String::from_str("(?i)(define|what is|explain)"),
                intent: Intent::Definition,
                priority: 8,
            },
        );
        rules.push(
            ClassificationRule {
                pattern: String::from_str("(?i)(will|should|need to|action|todo)"),
                intent: Intent::ActionItem,
                priority: 9,
            },
        );
        StateIntentRouter { classification_rules: rules }
    }

    /// Classify a transcript window: the first rule in the fixed order
    /// whose pattern matches wins; `GeneralAssistance` when none matches.
    pub fn classify_intent(&self, transcript: &str) -> (r: Intent)
        requires
            router_wf(self),
        ensures
            r == spec_classify(transcript@),
    {
        let mut i: usize = 0;
        while i < self.classification_rules.len()
            invariant
                router_wf(self),
                i <= RULE_COUNT,
                first_matching_intent(transcript@, 0) == first_matching_intent(
                    transcript@,
                    i as int,
                ),
            decreases RULE_COUNT - i,
        {
            let rule = &self.classification_rules[i];
            if regex_is_match(rule.pattern.as_str(), transcript) {
                return rule.intent;
            }
            i = i + 1;
        }
        Intent::GeneralAssistance
    }

    /// Build the context of one routing decision. The screen text is
    /// carried through when supplied; the speaker and meeting fields are
    /// not derived here.
    pub fn build_context(&self, transcript: &str, screen_text: Option<String>) -> (r: Context)
        ensures
            r.transcript_window@ == transcript@,
            r.speaker_context is None,
            r.screen_context == screen_text,
            r.meeting_metadata is None,
    {
        Context {
            transcript_window: String::from_str(transcript),
            speaker_context: None,
            screen_context: screen_text,
            meeting_metadata: None,
        }
    }

    /// Route one transcript window: classify it, build its context, assign
    /// the fixed priority of the intent, and build the generation prompt.
    /// Routing itself never fails.
    pub fn route_request(&self, transcript: &str, screen_context: Option<String>) -> (r: Result<
        RoutingDecision,
        PipelineError,
    >)
        requires
            router_wf(self),
        ensures
            r matches Ok(d) && decision_matches(d, transcript@, screen_context),
    {
        let intent = self.classify_intent(transcript);
        let context = self.build_context(transcript, screen_context);
        let priority: u8 = match intent {
            Intent::ActionItem => 9,
            Intent::Definition => 8,
            Intent::FollowUpQuestion => 7,
            Intent::DraftReply => 6,
            Intent::GeneralAssistance => 5,
        };
        let suggested_prompt = self.build_prompt(&intent, &context);
        Ok(RoutingDecision { intent, priority, context, suggested_prompt })
    }

    /// Build the generation prompt for an intent over a context. Building
    /// never fails; absent optional fields degrade to the generic form.
    pub fn build_prompt(&self, intent: &Intent, context: &Context) -> (r: String)
        ensures
            r@ == spec_prompt(*intent, context.transcript_window@),
    {
        let mut prompt = String::from_str("Recent conversation: ");
        prompt.append(context.transcript_window.as_str());
        match intent {
            Intent::FollowUpQuestion => {
                prompt.append("\n\nGenerate a relevant follow-up question to deepen understanding.");
            },
            Intent::Definition => {
                prompt.append(
                    "\n\nProvide a concise definition or explanation of the key concept mentioned.",
                );
            },
            Intent::ActionItem => {
                prompt.append("\n\nExtract and format any action items or next steps mentioned.");
            },
            Intent::DraftReply => {
                prompt.append("\n\nSuggest a professional response or reply.");
            },
            Intent::GeneralAssistance => {
                prompt.append("\n\nProvide helpful context or suggestions.");
            },
        }
        prompt
    }
}

/// What a routing decision for a transcript window and optional screen
/// snapshot holds.
pub open spec fn decision_matches(
    d: RoutingDecision,
    transcript: Seq<char>,
    screen_context: Option<String>,
) -> bool {
    &&& d.intent == spec_classify(transcript)
    &&& d.priority == spec_priority(d.intent)
    &&& d.context.transcript_window@ == transcript
    &&& d.context.speaker_context is None
    &&& d.context.screen_context == screen_context
    &&& d.context.meeting_metadata is None
    &&& d.suggested_prompt@ == spec_prompt(d.intent, transcript)
}

/// Law: classification is order sensitive. A transcript matching both the
/// question-word pattern and the action-word pattern takes the intent of
/// the rule listed first, `FollowUpQuestion`.
pub proof fn lemma_classification_order_sensitive(text: Seq<char>)
    ensures
        regex_match_of(rule_pattern(0), text) && regex_match_of(rule_pattern(2), text)
            ==> spec_classify(text) == Intent::FollowUpQuestion,
{
}

/// Law: the priority table is exact for every intent, whatever the
/// context: `ActionItem` is 9, `Definition` 8, `FollowUpQuestion` 7,
/// `DraftReply` 6, `GeneralAssistance` 5.
pub proof fn lemma_priority_table_exact()
    ensures
        spec_priority(Intent::ActionItem) == 9,
        spec_priority(Intent::Definition) == 8,
        spec_priority(Intent::FollowUpQuestion) == 7,
        spec_priority(Intent::DraftReply) == 6,
        spec_priority(Intent::GeneralAssistance) == 5,
{
}

} // verus!
