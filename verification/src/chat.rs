use vstd::prelude::*;
use vstd::string::*;
use crate::browse::{BrowseIntent, detect_browse_intent, spec_detect_browse_intent, IntentView};
use crate::office::types::{EditAction, ActionView, action_opt_view};
use crate::text::{chars_of, contains, contains_exec, owned, trim, trim_string};
use crate::tools::parser::{extract_tool_call, spec_extract_tool_call, strip_tool_call, spec_strip_tool_call};
use crate::pattern::group_view;
use crate::triggers::{TriggerRule, evaluate, spec_evaluate};

verus! {

/// A character that ends a sentence for speech.
pub open spec fn sentence_end(c: char) -> bool {
    c == '。' || c == '！' || c == '？' || c == '!' || c == '?' || c == '\n'
}

pub fn is_sentence_end(c: char) -> (r: bool)
    ensures
        r == sentence_end(c),
{
    c == '。' || c == '！' || c == '？' || c == '!' || c == '?' || c == '\n'
}

/// A reply has begun a tool-call block.
pub open spec fn opens_tool_block(full: Seq<char>) -> bool {
    contains(full, "```tool"@) || contains(full, "```json"@) || contains(full, "<tool_call>"@)
}

pub open spec fn ends_sentence(t: Seq<char>) -> bool {
    exists|i: int| 0 <= i < t.len() && sentence_end(#[trigger] t[i])
}

/// The state of a reply as its tokens stream in.
pub struct StreamState {
    /// Everything received so far.
    pub full: String,
    /// Whether a tool-call block has begun; from then on nothing is shown.
    pub in_tool_block: bool,
    /// The sentence being collected for speech.
    pub sentence_buf: String,
    /// How many sentences have been handed to speech.
    pub sent_idx: usize,
}

pub struct StreamView {
    pub full: Seq<char>,
    pub in_tool_block: bool,
    pub sentence_buf: Seq<char>,
    pub sent_idx: nat,
}

impl View for StreamState {
    type V = StreamView;

    open spec fn view(&self) -> StreamView {
        StreamView {
            full: self.full@,
            in_tool_block: self.in_tool_block,
            sentence_buf: self.sentence_buf@,
            sent_idx: self.sent_idx as nat,
        }
    }
}

/// What to do with one token: show it, and hand a finished sentence (with
/// its number) to speech.
pub struct TokenStep {
    pub emit: Option<String>,
    pub speak: Option<(String, usize)>,
}

/// The state after `token` arrives. Speech collects only where `tts_on`.
pub open spec fn next_stream(s: StreamView, token: Seq<char>, tts_on: bool) -> StreamView {
    if token.len() == 0 {
        s
    } else {
        let full = s.full + token;
        let in_block = s.in_tool_block || opens_tool_block(full);
        if in_block || !tts_on {
            StreamView { full, in_tool_block: in_block, ..s }
        } else {
            let buf = s.sentence_buf + token;
            if ends_sentence(token) {
                StreamView {
                    full,
                    in_tool_block: false,
                    sentence_buf: Seq::empty(),
                    sent_idx: if trim(buf).len() > 0 {
                        s.sent_idx + 1
                    } else {
                        s.sent_idx
                    },
                }
            } else {
                StreamView { full, in_tool_block: false, sentence_buf: buf, sent_idx: s.sent_idx }
            }
        }
    }
}

/// The token is shown where it is not empty and no tool-call block has begun.
pub open spec fn emitted(s: StreamView, token: Seq<char>) -> Option<Seq<char>> {
    if token.len() > 0 && !(s.in_tool_block || opens_tool_block(s.full + token)) {
        Some(token)
    } else {
        None
    }
}

/// The sentence handed to speech, with its number, where the token ends one.
pub open spec fn spoken(s: StreamView, token: Seq<char>, tts_on: bool) -> Option<(Seq<char>, nat)> {
    if emitted(s, token) is Some && tts_on && ends_sentence(token) && trim(
        s.sentence_buf + token,
    ).len() > 0 {
        Some((trim(s.sentence_buf + token), s.sent_idx))
    } else {
        None
    }
}

pub open spec fn speak_view(p: Option<(String, usize)>) -> Option<(Seq<char>, nat)> {
    match p {
        Some((s, i)) => Some((s@, i as nat)),
        None => None,
    }
}

fn ends_sentence_exec(t: &str) -> (r: bool)
    ensures
        r == ends_sentence(t@),
{
    let cs = chars_of(t);
    let mut i: usize = 0;
    while i < cs.len()
        invariant
            i <= cs.len(),
            cs@ == t@,
            forall|k: int| 0 <= k < i ==> !sentence_end(#[trigger] cs@[k]),
        decreases cs.len() - i,
    {
        if is_sentence_end(cs[i]) {
            return true;
        }
        i = i + 1;
    }
    false
}

fn opens_tool_block_exec(full: &str) -> (r: bool)
    ensures
        r == opens_tool_block(full@),
{
    let f = chars_of(full);
    contains_exec(&f, &chars_of("```tool")) || contains_exec(&f, &chars_of("```json"))
        || contains_exec(&f, &chars_of("<tool_call>"))
}

impl StreamState {
    pub fn new() -> (res: Self)
        ensures
            res@ == (StreamView {
                full: Seq::empty(),
                in_tool_block: false,
                sentence_buf: Seq::empty(),
                sent_idx: 0,
            }),
    {
        StreamState {
            full: String::new(),
            in_tool_block: false,
            sentence_buf: String::new(),
            sent_idx: 0,
        }
    }

    /// Takes in one token of the reply.
    pub fn on_token(&mut self, token: &str, tts_on: bool) -> (res: TokenStep)
        requires
            old(self).sent_idx < usize::MAX,
        ensures
            final(self)@ == next_stream(old(self)@, token@, tts_on),
            group_view(res.emit) == emitted(old(self)@, token@),
            speak_view(res.speak) == spoken(old(self)@, token@, tts_on),
    {
        if token.is_empty() {
            return TokenStep { emit: None, speak: None };
        }
        self.full.append(token);
        if !self.in_tool_block && opens_tool_block_exec(self.full.as_str()) {
            self.in_tool_block = true;
        }
        if self.in_tool_block {
            return TokenStep { emit: None, speak: None };
        }
        let emit = Some(owned(token));
        if !tts_on {
            return TokenStep { emit, speak: None };
        }
        self.sentence_buf.append(token);
        if ends_sentence_exec(token) {
            let s = trim_string(self.sentence_buf.as_str());
            let speak = if s.as_str().is_empty() {
                None
            } else {
                let idx = self.sent_idx;
                self.sent_idx = self.sent_idx + 1;
                Some((s, idx))
            };
            self.sentence_buf = String::new();
            TokenStep { emit, speak }
        } else {
            TokenStep { emit, speak: None }
        }
    }
}

/// Once a tool-call block has begun, it stays begun and nothing more is shown.
pub proof fn lemma_tool_block_sticky(s: StreamView, token: Seq<char>, tts_on: bool)
    requires
        s.in_tool_block,
    ensures
        next_stream(s, token, tts_on).in_tool_block,
        emitted(s, token) is None,
        spoken(s, token, tts_on) is None,
{
}

/// A reply that has come to hold a fenced `tool` or `json` block or a
/// `<tool_call>` tag hides everything from the token that completes it on:
/// the state is in a tool-call block, and the token is neither shown nor
/// spoken.
pub proof fn lemma_tool_call_forms_are_hidden(s: StreamView, token: Seq<char>, tts_on: bool)
    requires
        token.len() > 0,
        contains(s.full + token, "```tool"@) || contains(s.full + token, "```json"@) || contains(
            s.full + token,
            "<tool_call>"@,
        ),
    ensures
        next_stream(s, token, tts_on).in_tool_block,
        emitted(s, token) is None,
        spoken(s, token, tts_on) is None,
{
}

/// Every token is kept: the reply received is the tokens joined.
pub proof fn lemma_full_accumulates(s: StreamView, token: Seq<char>, tts_on: bool)
    ensures
        next_stream(s, token, tts_on).full == s.full + token,
{
    if token.len() == 0 {
        assert(s.full + token =~= s.full);
    }
}

/// How a reply ends once its stream is complete.
pub struct TurnEnd {
    /// The tool call in the reply.
    pub action: Option<EditAction>,
    /// The reply without its tool calls.
    pub visible: String,
    /// The last sentence for speech, where the reply has no tool call.
    pub last_sentence: Option<(String, usize)>,
    /// How many sentences were handed to speech in all.
    pub voice_count: usize,
}

/// The last sentence left for speech: only where the reply has no tool call
/// and speech is on.
pub open spec fn last_spoken(s: StreamView, has_tool: bool, tts_on: bool) -> Option<(Seq<char>, nat)> {
    if !has_tool && tts_on && trim(s.sentence_buf).len() > 0 {
        Some((trim(s.sentence_buf), s.sent_idx))
    } else {
        None
    }
}

/// The tool call of a reply that is acted on: the one in the reply where
/// Office editing is on, none where it is off.
pub open spec fn acted_tool_call(full: Seq<char>, office_enabled: bool) -> Option<ActionView> {
    if office_enabled {
        spec_extract_tool_call(full)
    } else {
        None
    }
}

/// Ends a complete reply: finds its tool call (only where Office editing is
/// on), the text the user sees, and the last sentence to speak.
pub fn finish_turn(state: &StreamState, tts_on: bool, office_enabled: bool) -> (res: TurnEnd)
    requires
        state.sent_idx < usize::MAX,
    ensures
        action_opt_view(res.action) == acted_tool_call(state.full@, office_enabled),
        res.visible@ == spec_strip_tool_call(state.full@),
        speak_view(res.last_sentence) == last_spoken(
            state@,
            acted_tool_call(state.full@, office_enabled) is Some,
            tts_on,
        ),
        res.voice_count == state.sent_idx + if res.last_sentence is Some {
            1int
        } else {
            0int
        },
{
    let action = if office_enabled {
        extract_tool_call(state.full.as_str())
    } else {
        None
    };
    let visible = strip_tool_call(state.full.as_str());
    let mut last_sentence = None;
    let mut voice_count = state.sent_idx;
    if action.is_none() && tts_on {
        let s = trim_string(state.sentence_buf.as_str());
        if !s.as_str().is_empty() {
            last_sentence = Some((s, state.sent_idx));
            voice_count = voice_count + 1;
        }
    }
    TurnEnd { action, visible, last_sentence, voice_count }
}

/// Whether another round of the chat may start: `depth` rounds of tool calls
/// have run, and at most `max_tool_calls` are allowed.
pub fn check_tool_depth(depth: u32, max_tool_calls: u32) -> (res: Result<(), String>)
    ensures
        res is Ok <==> depth < max_tool_calls,
        res matches Err(e) ==> e@ == "ツール呼び出し上限"@,
{
    if depth >= max_tool_calls {
        Err(owned("ツール呼び出し上限"))
    } else {
        Ok(())
    }
}

/// What follows a tool call found at round `depth` of a turn.
pub enum ToolStep {
    /// The call waits for the user to confirm it.
    AwaitConfirmation(EditAction),
    /// The call runs at once, and the next round of the turn is `next_depth`.
    Run { action: EditAction, next_depth: u32 },
}

/// The round that follows a tool call at `depth`: none where the call waits
/// for the user, else the next depth of the same turn.
pub open spec fn next_round(require_confirmation: bool, depth: u32) -> Option<u32> {
    if require_confirmation {
        None
    } else {
        Some((depth + 1) as u32)
    }
}

/// Decides what follows a tool call at round `depth`: it waits for the user
/// where confirmation is required; otherwise it runs, and the turn goes on one
/// round deeper.
pub fn after_tool_call(require_confirmation: bool, depth: u32, action: EditAction) -> (res: ToolStep)
    requires
        depth < u32::MAX,
    ensures
        require_confirmation ==> res == ToolStep::AwaitConfirmation(action),
        !require_confirmation ==> res == (ToolStep::Run { action, next_depth: (depth + 1) as u32 }),
        next_round(require_confirmation, depth) == match res {
            ToolStep::AwaitConfirmation(_) => None,
            ToolStep::Run { next_depth, .. } => Some(next_depth),
        },
{
    if require_confirmation {
        ToolStep::AwaitConfirmation(action)
    } else {
        ToolStep::Run { action, next_depth: depth + 1 }
    }
}

/// The chat requests of a turn from round `depth` on, where `tools[k]` says
/// whether reply `k` holds a tool call that is acted on and `max_tool_calls`
/// is the limit: a round runs only below the limit (`check_tool_depth`), and
/// its tool call leads to the round that `next_round` gives.
pub open spec fn turn_requests(max_tool_calls: u32, require_confirmation: bool, depth: u32, tools: Seq<bool>) -> nat
    decreases max_tool_calls - depth, tools.len(),
{
    if !(depth < max_tool_calls) {
        0
    } else if tools.len() == 0 || !tools[0] {
        1
    } else {
        match next_round(require_confirmation, depth) {
            None => 1,
            Some(d) => 1 + turn_requests(max_tool_calls, require_confirmation, d, tools.drop_first()),
        }
    }
}

/// The tool calls that a turn runs from round `depth` on, as for
/// `turn_requests`.
pub open spec fn turn_tool_runs(max_tool_calls: u32, require_confirmation: bool, depth: u32, tools: Seq<bool>) -> nat
    decreases max_tool_calls - depth, tools.len(),
{
    if !(depth < max_tool_calls) || tools.len() == 0 || !tools[0] {
        0
    } else {
        match next_round(require_confirmation, depth) {
            None => 0,
            Some(d) => 1 + turn_tool_runs(max_tool_calls, require_confirmation, d, tools.drop_first()),
        }
    }
}

/// With a limit of `max_tool_calls`, a turn from round `depth` sends at most
/// `max_tool_calls - depth` chat requests and runs at most as many tool
/// calls, whatever the replies hold.
pub proof fn lemma_turn_is_bounded(max_tool_calls: u32, require_confirmation: bool, depth: u32, tools: Seq<bool>)
    requires
        depth <= max_tool_calls,
    ensures
        turn_requests(max_tool_calls, require_confirmation, depth, tools) <= max_tool_calls - depth,
        turn_tool_runs(max_tool_calls, require_confirmation, depth, tools) <= max_tool_calls - depth,
    decreases max_tool_calls - depth, tools.len(),
{
    if depth < max_tool_calls && tools.len() > 0 && tools[0] && !require_confirmation {
        lemma_turn_is_bounded(max_tool_calls, require_confirmation, (depth + 1) as u32, tools.drop_first());
    }
}

/// A whole turn, from round 0, sends at most `max_tool_calls` chat requests
/// and runs at most `max_tool_calls` tool calls.
pub proof fn lemma_turn_limit(max_tool_calls: u32, require_confirmation: bool, tools: Seq<bool>)
    ensures
        turn_requests(max_tool_calls, require_confirmation, 0, tools) <= max_tool_calls,
        turn_tool_runs(max_tool_calls, require_confirmation, 0, tools) <= max_tool_calls,
{
    lemma_turn_is_bounded(max_tool_calls, require_confirmation, 0, tools);
}

/// What a message leads to first.
pub enum MessagePlan {
    /// A trigger rule asks for an action.
    Tool(EditAction),
    /// The message asks to look something up.
    Browse(BrowseIntent),
    /// A plain chat round.
    Chat,
}

pub enum PlanView {
    Tool(ActionView),
    Browse(IntentView),
    Chat,
}

impl View for MessagePlan {
    type V = PlanView;

    open spec fn view(&self) -> PlanView {
        match self {
            MessagePlan::Tool(a) => PlanView::Tool(a@),
            MessagePlan::Browse(b) => PlanView::Browse(b@),
            MessagePlan::Chat => PlanView::Chat,
        }
    }
}

/// The first step for a message: where Office editing is on, a trigger
/// rule's action; else, where browsing is on and the message asks to look
/// something up, that lookup; else a chat round.
pub open spec fn spec_plan_message(
    message: Seq<char>,
    office_enabled: bool,
    browse_enabled: bool,
    triggers: Seq<TriggerRule>,
) -> PlanView {
    if office_enabled && spec_evaluate(message, triggers) is Some {
        PlanView::Tool(spec_evaluate(message, triggers)->0)
    } else if browse_enabled && !(spec_detect_browse_intent(message) is Nothing) {
        PlanView::Browse(spec_detect_browse_intent(message))
    } else {
        PlanView::Chat
    }
}

pub fn plan_message(
    message: &str,
    office_enabled: bool,
    browse_enabled: bool,
    triggers: &Vec<TriggerRule>,
) -> (res: MessagePlan)
    ensures
        res@ == spec_plan_message(message@, office_enabled, browse_enabled, triggers@),
{
    if office_enabled {
        match evaluate(message, triggers) {
            Some(a) => {
                return MessagePlan::Tool(a);
            },
            None => {},
        }
    }
    if browse_enabled {
        let intent = detect_browse_intent(message);
        match intent {
            BrowseIntent::Nothing => MessagePlan::Chat,
            _ => MessagePlan::Browse(intent),
        }
    } else {
        MessagePlan::Chat
    }
}

/// The system message that hands the model what a lookup found.
pub open spec fn spec_browse_context_message(ctx: Seq<char>) -> Seq<char> {
    "[最重要指示] ユーザーが検索や情報取得を依頼しました。以下のWeb検索結果を必ず参照し、その内容をもとに回答してください。\n\n[検索結果]\n"@
        + ctx + "\n[検索結果ここまで]"@
}

pub fn browse_context_message(ctx: &str) -> (res: String)
    ensures
        res@ == spec_browse_context_message(ctx@),
{
    let mut s = owned(
        "[最重要指示] ユーザーが検索や情報取得を依頼しました。以下のWeb検索結果を必ず参照し、その内容をもとに回答してください。\n\n[検索結果]\n",
    );
    s.append(ctx);
    s.append("\n[検索結果ここまで]");
    s
}

/// Puts `item` just before the last message of `history`, which stays last.
pub fn insert_before_last<T>(history: &mut Vec<T>, item: T)
    requires
        old(history).len() > 0,
    ensures
        final(history)@ == old(history)@.drop_last().push(item).push(old(history)@.last()),
{
    let last = history.pop().unwrap();
    history.push(item);
    history.push(last);
}

/// The system message that reports a tool's result to the model.
pub open spec fn spec_tool_result_message(tool: Seq<char>, result_json: Seq<char>) -> Seq<char> {
    "[ツール実行結果] tool="@ + tool + " result="@ + result_json
}

pub fn tool_result_message(tool: &str, result_json: &str) -> (res: String)
    ensures
        res@ == spec_tool_result_message(tool@, result_json@),
{
    let mut s = owned("[ツール実行結果] tool=");
    s.append(tool);
    s.append(" result=");
    s.append(result_json);
    s
}

/// The system message that tells the model the user declined a tool call.
pub fn tool_cancelled_message() -> (res: String)
    ensures
        res@ == "[ツール実行キャンセル] ユーザーが拒否しました。自然に会話に戻ってください。"@,
{
    owned("[ツール実行キャンセル] ユーザーが拒否しました。自然に会話に戻ってください。")
}

/// Takes the tool call that waits for confirmation, or reports that none does.
pub fn take_pending(pending: &mut Option<EditAction>) -> (res: Result<EditAction, String>)
    ensures
        *final(pending) is None,
        match *old(pending) {
            Some(a) => res matches Ok(b) && b@ == a@,
            None => (res matches Err(e) && e@ == "保留中のtool-callがありません"@),
        },
{
    match pending.take() {
        Some(a) => Ok(a),
        None => Err(owned("保留中のtool-callがありません")),
    }
}

/// The reply to an undo: where the file was restored from.
pub fn restored_message(backup: &str) -> (res: String)
    ensures
        res@ == "復元元: "@ + backup@,
{
    let mut s = owned("復元元: ");
    s.append(backup);
    s
}

} // verus!
