//! Transcripts.

use vstd::prelude::*;

use crate::error::{Error, ErrorView};
use crate::text::{self, push_hex};
use crate::types::content::{
    self, ContentBlock, ContentBlockView, TextBlock, ToolOutput, ToolOutputView, ToolResultBlock,
};
use crate::types::response::{Response, ResponseView};

verus! {

#[derive(Debug, Clone, Copy, PartialEq, Eq, Structural)]
pub enum Role {
    User,
    Assistant,
}

/// Which backend produced (or may accept) a conversation's assistant turns.
#[derive(Debug, Clone, Copy, PartialEq, Eq, Structural)]
pub enum ProviderKind {
    Anthropic,
    Xai,
    OpenAi,
}

#[derive(Debug, Clone, PartialEq)]
pub struct Message {
    pub role: Role,
    pub content: Vec<ContentBlock>,
}

/// Ordered transcript plus soft provider affinity.
///
/// After the first successful assistant response the conversation is pinned so
/// later turns keep using the same wire semantics (tool ids, reasoning blobs).
///
/// An optional **volatile** slot marks at most one prior message (typically a
/// fat environment-state user turn) that may later be demoted in place. This
/// is opt-in: chat consumers that only call `push_user` / `push_tool_result`
/// never set the mark.
#[derive(Debug, Clone, PartialEq)]
pub struct Conversation {
    messages: Vec<Message>,
    provider: Option<ProviderKind>,
    /// Stable across turns so prompt-caching backends can reuse prefixes.
    cache_key: String,
    /// Index of the single demotable message, if any. Not persisted: resumed
    /// sessions are append-only, so a rewrite-capable mark must not survive load.
    volatile: Option<usize>,
}

/// A message as mathematics sees it.
pub struct MessageView {
    pub role: Role,
    pub content: Seq<ContentBlockView>,
}

/// A conversation as mathematics sees it.
pub struct ConversationView {
    pub messages: Seq<MessageView>,
    pub provider: Option<ProviderKind>,
    pub cache_key: Seq<char>,
    pub volatile: Option<usize>,
}

impl View for Message {
    type V = MessageView;

    open spec fn view(&self) -> MessageView {
        MessageView { role: self.role, content: content::blocks_view(self.content@) }
    }
}

/// What each message of a sequence is.
pub open spec fn messages_view(messages: Seq<Message>) -> Seq<MessageView> {
    messages.map_values(|m: Message| m@)
}

impl View for Conversation {
    type V = ConversationView;

    closed spec fn view(&self) -> ConversationView {
        ConversationView {
            messages: messages_view(self.messages@),
            provider: self.provider,
            cache_key: self.cache_key@,
            volatile: self.volatile,
        }
    }
}

/// A user turn of one text.
pub open spec fn user_text(text: Seq<char>) -> MessageView {
    MessageView { role: Role::User, content: seq![content::plain_text(text)] }
}

/// A user turn that holds tool results and nothing else.
pub open spec fn is_tool_only(m: MessageView) -> bool {
    &&& m.role == Role::User
    &&& forall|i: int| 0 <= i < m.content.len() ==> #[trigger] m.content[i] is ToolResult
}

/// A user turn that starts with text.
pub open spec fn is_user_text(m: MessageView) -> bool {
    &&& m.role == Role::User
    &&& m.content.len() > 0
    &&& m.content[0] is Text
}

/// A user turn of one text and nothing else.
pub open spec fn is_single_text(m: MessageView) -> bool {
    &&& is_user_text(m)
    &&& m.content.len() == 1
}

/// The prompt-cache key of the conversation numbered `serial`, opened `nanos`
/// nanoseconds after the Unix epoch.
pub open spec fn cache_key_text(nanos: nat, serial: nat) -> Seq<char> {
    "lab9-"@ + text::hex(nanos) + "-"@ + text::hex(serial)
}

impl ConversationView {
    /// A conversation in which nothing has been said yet.
    pub open spec fn fresh(cache_key: Seq<char>) -> Self {
        ConversationView { messages: Seq::empty(), provider: None, cache_key, volatile: None }
    }

    /// The marked message; a mark behind the end marks nothing.
    pub open spec fn volatile_index(self) -> Option<usize> {
        match self.volatile {
            Some(i) if i < self.messages.len() => Some(i),
            _ => None,
        }
    }

    /// The mark, if set, is on a user turn of the transcript that holds one text.
    pub open spec fn well_formed(self) -> bool {
        match self.volatile {
            Some(i) => i < self.messages.len() && is_single_text(self.messages[i as int]),
            None => true,
        }
    }

    /// Without a stale mark, which a longer transcript would bring back to life.
    pub open spec fn settled(self) -> Self {
        ConversationView { volatile: self.volatile_index(), ..self }
    }

    pub open spec fn with_user(self, text: Seq<char>) -> Self {
        ConversationView { messages: self.messages.push(user_text(text)), ..self.settled() }
    }

    pub open spec fn with_volatile_user(self, text: Seq<char>) -> Self {
        ConversationView {
            messages: self.messages.push(user_text(text)),
            volatile: Some(self.messages.len() as usize),
            ..self
        }
    }

    /// Why the marked message cannot be demoted, if it cannot.
    pub open spec fn demote_refusal(self) -> Option<Seq<char>> {
        match self.volatile {
            None => Some("no volatile message to demote"@),
            Some(i) => if i >= self.messages.len() {
                Some("volatile index is out of range"@)
            } else if self.messages[i as int].role != Role::User {
                Some("volatile message is not a user turn"@)
            } else if !is_user_text(self.messages[i as int]) {
                Some(
                    "volatile message is not user text; kind-preserving tool_result demotion is not shipped yet"@,
                )
            } else {
                None
            },
        }
    }

    /// A demotable message becomes the stub and loses its mark; a mark behind
    /// the end is cleared; anything else stays.
    pub open spec fn with_demoted(self, stub: Seq<char>) -> Self {
        match self.volatile {
            Some(i) => if i >= self.messages.len() {
                ConversationView { volatile: None, ..self }
            } else if self.demote_refusal() is Some {
                self
            } else {
                ConversationView {
                    messages: self.messages.update(i as int, user_text(stub)),
                    volatile: None,
                    ..self
                }
            },
            None => self,
        }
    }

    pub open spec fn with_rotated(self, stub: Seq<char>, fat: Seq<char>) -> Self {
        self.with_demoted(stub).with_volatile_user(fat)
    }

    /// A tool result joins a last turn of tool results, else opens a turn.
    pub open spec fn with_tool_result(self, id: Seq<char>, output: ToolOutputView) -> Self {
        let block = ContentBlockView::ToolResult { id, output };
        if self.messages.len() > 0 && is_tool_only(self.messages.last()) {
            let grown = MessageView {
                role: Role::User,
                content: self.messages.last().content.push(block),
            };
            ConversationView { messages: self.messages.drop_last().push(grown), ..self.settled() }
        } else {
            let turn = MessageView { role: Role::User, content: seq![block] };
            ConversationView { messages: self.messages.push(turn), ..self.settled() }
        }
    }

    pub open spec fn with_response(self, resp: ResponseView) -> Self {
        ConversationView {
            messages: self.messages.push(resp.message),
            provider: Some(resp.provider),
            ..self.settled()
        }
    }
}

/// The prompt-cache key of the conversation numbered `serial`, opened `nanos`
/// nanoseconds after the Unix epoch: unique per process where serials are,
/// without an external source of randomness.
pub fn new_cache_key(nanos: u128, serial: u64) -> (r: String)
    ensures
        r@ == cache_key_text(nanos as nat, serial as nat),
{
    let mut key = "lab9-".to_owned();
    push_hex(&mut key, nanos);
    key.append("-");
    push_hex(&mut key, serial as u128);
    key
}

/// One block as the content of a message.
fn single(block: ContentBlock) -> (r: Vec<ContentBlock>)
    ensures
        content::blocks_view(r@) == seq![block@],
{
    let mut content = Vec::new();
    content.push(block);
    assert(content::blocks_view(content@) =~= seq![block@]);
    content
}

/// An error for a refused operation.
fn refusal(message: &str) -> (r: Error)
    ensures
        r@ == ErrorView::InvalidRequest(message@),
{
    Error::InvalidRequest(message.to_owned())
}

/// Whether a message holds tool results and nothing else, in a user turn.
fn holds_only_tool_results(m: &Message) -> (r: bool)
    ensures
        r == is_tool_only(m@),
{
    if m.role != Role::User {
        return false;
    }
    for i in 0..m.content.len()
        invariant
            forall|k: int| 0 <= k < i ==> #[trigger] m.content@[k] is ToolResult,
    {
        match &m.content[i] {
            ContentBlock::ToolResult(_) => {},
            _ => {
                assert(!(m@.content[i as int] is ToolResult));
                return false;
            },
        }
    }
    assert forall|k: int| 0 <= k < m@.content.len() implies #[trigger] m@.content[k] is ToolResult by {
        assert(m.content@[k] is ToolResult);
    }
    true
}

impl Conversation {
    /// A conversation in which nothing has been said yet, with the cache key
    /// that [`new_cache_key`] makes of the opening time and a serial number.
    pub fn new(nanos: u128, serial: u64) -> (r: Self)
        ensures
            r@ == ConversationView::fresh(cache_key_text(nanos as nat, serial as nat)),
            r@.well_formed(),
    {
        let r = Conversation {
            messages: Vec::new(),
            provider: None,
            cache_key: new_cache_key(nanos, serial),
            volatile: None,
        };
        assert(r@.messages =~= Seq::empty());
        r
    }

    /// A saved conversation, taken up again. Whatever was marked when it was
    /// saved, nothing is marked now.
    pub fn restore(messages: Vec<Message>, provider: Option<ProviderKind>, cache_key: String) -> (r:
        Self)
        ensures
            r@ == (ConversationView {
                messages: messages_view(messages@),
                provider,
                cache_key: cache_key@,
                volatile: None,
            }),
            r@.well_formed(),
    {
        Conversation { messages, provider, cache_key, volatile: None }
    }

    /// Stable across turns so prompt-caching backends can reuse prefixes.
    pub fn cache_key(&self) -> (r: &str)
        ensures
            r@ == self@.cache_key,
    {
        self.cache_key.as_str()
    }

    /// Index of the current volatile message, if any.
    ///
    /// Clears a stale mark, whose index is not valid. Callers may treat `None`
    /// as "no volatile".
    pub fn volatile_index(&mut self) -> (r: Option<usize>)
        ensures
            r == old(self)@.volatile_index(),
            final(self)@ == (ConversationView {
                volatile: old(self)@.volatile_index(),
                ..old(self)@
            }),
            final(self)@.volatile_index() == r,
    {
        let mark = self.current_mark();
        let ghost before = self@;
        self.volatile = mark;
        assert(self@.messages =~= before.messages);
        mark
    }

    /// Index of the current volatile message, if any, for readers that leave a
    /// stale mark alone.
    pub(crate) fn current_mark(&self) -> (r: Option<usize>)
        ensures
            r == self@.volatile_index(),
    {
        match self.volatile {
            Some(i) => if i < self.messages.len() {
                Some(i)
            } else {
                None
            },
            None => None,
        }
    }

    /// Set or clear the mark by hand. Nothing asks that the marked message exist
    /// or be demotable; the operations that use the mark do.
    pub fn set_volatile(&mut self, mark: Option<usize>)
        ensures
            final(self)@ == (ConversationView { volatile: mark, ..old(self)@ }),
    {
        let ghost before = self@;
        self.volatile = mark;
        assert(self@.messages =~= before.messages);
    }

    /// Append a user text turn.
    pub fn push_user(&mut self, text: &str)
        ensures
            final(self)@ == old(self)@.with_user(text@),
            old(self)@.well_formed() ==> final(self)@.well_formed(),
    {
        let block = ContentBlock::Text(TextBlock { text: text.to_owned(), extras: None });
        let _ = self.volatile_index();
        let ghost before = self@;
        self.messages.push(Message { role: Role::User, content: single(block) });
        assert(self@.messages =~= before.messages.push(user_text(text@)));
    }

    /// Append a user text turn and mark it as the volatile state block.
    ///
    /// Errors if a volatile message already exists: call
    /// [`Conversation::demote_volatile`] or
    /// [`Conversation::rotate_volatile_user`] first.
    pub fn push_volatile_user(&mut self, text: &str) -> (r: Result<(), Error>)
        ensures
            old(self)@.volatile_index() is None ==> {
                &&& r is Ok
                &&& final(self)@ == old(self)@.with_volatile_user(text@)
            },
            old(self)@.volatile_index() is Some ==> {
                &&& r matches Err(e)
                &&& e@ == ErrorView::InvalidRequest(
                    "volatile message already set; demote or rotate before pushing another"@,
                )
                &&& final(self)@ == old(self)@
            },
            old(self)@.well_formed() ==> final(self)@.well_formed(),
    {
        if self.volatile_index().is_some() {
            return Err(
                refusal("volatile message already set; demote or rotate before pushing another"),
            );
        }
        let last: usize = self.messages.len();
        self.push_user(text);
        let ghost before = self@;
        self.volatile = Some(last);
        assert(self@.messages =~= before.messages);
        Ok(())
    }

    /// Replace the volatile message's content with a short stub, preserving
    /// role and message count. Clears the volatile mark.
    ///
    /// The marked message must be user text. Errors if there is no volatile
    /// message or the kind is not demotable as text.
    pub fn demote_volatile(&mut self, stub: &str) -> (r: Result<(), Error>)
        ensures
            final(self)@ == old(self)@.with_demoted(stub@),
            old(self)@.well_formed() ==> final(self)@.well_formed(),
            match old(self)@.demote_refusal() {
                None => r is Ok,
                Some(message) => r matches Err(e) && e@ == ErrorView::InvalidRequest(message),
            },
    {
        let idx: usize = match self.volatile {
            Some(i) => i,
            None => {
                return Err(refusal("no volatile message to demote"));
            },
        };
        let ghost before = self@;
        if idx >= self.messages.len() {
            self.volatile = None;
            assert(self@.messages =~= before.messages);
            return Err(refusal("volatile index is out of range"));
        }
        assert(before.messages[idx as int] == self.messages@[idx as int]@);
        if self.messages[idx].role != Role::User {
            return Err(refusal("volatile message is not a user turn"));
        }
        let is_text = self.messages[idx].content.len() > 0 && match &self.messages[idx].content[0] {
            ContentBlock::Text(_) => true,
            _ => false,
        };
        assert(is_text == is_user_text(before.messages[idx as int]));
        if !is_text {
            return Err(
                refusal(
                    "volatile message is not user text; kind-preserving tool_result demotion is not shipped yet",
                ),
            );
        }
        let block = ContentBlock::Text(TextBlock { text: stub.to_owned(), extras: None });
        self.messages.set(idx, Message { role: Role::User, content: single(block) });
        self.volatile = None;
        assert(self@.messages =~= before.messages.update(idx as int, user_text(stub@)));
        Ok(())
    }

    /// Demote the previous volatile (if any), then push a new text volatile.
    ///
    /// Infallible sugar for the environment loop: a missing mark is a no-op
    /// for the demote step (stub is ignored).
    pub fn rotate_volatile_user(&mut self, stub: &str, fat: &str)
        requires
            old(self)@.volatile_index() is Some ==> old(self)@.demote_refusal() is None,
        ensures
            final(self)@ == old(self)@.with_rotated(stub@, fat@),
            old(self)@.well_formed() ==> final(self)@.well_formed(),
    {
        let _ = self.demote_volatile(stub);
        let _ = self.push_volatile_user(fat);
    }

    /// Append a tool result. Coalesces into the last user message when it is
    /// already tool-results-only so multi-tool turns match provider layouts
    /// that expect one user turn with several results.
    pub fn push_tool_result(&mut self, id: &str, output: ToolOutput)
        ensures
            final(self)@ == old(self)@.with_tool_result(id@, output@),
            old(self)@.well_formed() ==> final(self)@.well_formed(),
    {
        let _ = self.volatile_index();
        let ghost settled = *self;
        let ghost before = self@;
        let ghost shown = ContentBlockView::ToolResult { id: id@, output: output@ };
        let block = ContentBlock::ToolResult(ToolResultBlock { id: id.to_owned(), output });
        let coalesce = match self.messages.last() {
            Some(m) => holds_only_tool_results(m),
            None => false,
        };
        if coalesce {
            assert(before.messages.last() == self.messages@.last()@);
            match self.messages.pop() {
                Some(mut m) => {
                    let ghost content = m.content@;
                    m.content.push(block);
                    assert(content::blocks_view(m.content@) =~= content::blocks_view(content).push(shown));
                    self.messages.push(m);
                },
                None => {},
            }
            assert(self@.messages =~= before.with_tool_result(id@, output@).messages);
        } else {
            self.messages.push(Message { role: Role::User, content: single(block) });
            assert(before.messages.len() > 0 ==> before.messages.last()
                == settled.messages@.last()@);
            assert(self@.messages =~= before.with_tool_result(id@, output@).messages);
        }
    }

    /// Record an assistant turn and pin the conversation to that provider.
    pub fn push_response(&mut self, resp: Response) -> (r: &Message)
        ensures
            final(self)@ == old(self)@.with_response(resp@),
            old(self)@.well_formed() ==> final(self)@.well_formed(),
            r@ == resp@.message,
    {
        let _ = self.volatile_index();
        let ghost before = self@;
        self.provider = Some(resp.provider);
        self.messages.push(resp.message);
        assert(self@.messages =~= before.messages.push(resp.message@));
        &self.messages[self.messages.len() - 1]
    }

    pub fn messages(&self) -> (r: &[Message])
        ensures
            messages_view(r@) == self@.messages,
    {
        self.messages.as_slice()
    }

    pub fn provider(&self) -> (r: Option<ProviderKind>)
        ensures
            r == self@.provider,
    {
        self.provider
    }
}

/// Every operation leaves the mark, if set, on a user text turn of the
/// transcript. So the loop of rotations never fails: a conversation that was
/// only ever changed by these operations can always be rotated.
pub proof fn well_formed_is_kept(
    c: ConversationView,
    text: Seq<char>,
    fat: Seq<char>,
    id: Seq<char>,
    output: ToolOutputView,
    resp: ResponseView,
)
    requires
        c.well_formed(),
        c.messages.len() <= usize::MAX,
    ensures
        c.with_user(text).well_formed(),
        c.with_volatile_user(text).well_formed(),
        c.with_demoted(text).well_formed(),
        c.with_rotated(text, fat).well_formed(),
        c.with_tool_result(id, output).well_formed(),
        c.with_response(resp).well_formed(),
        c.volatile_index() is Some ==> c.demote_refusal() is None,
        c.volatile_index() == c.volatile,
{
    assert(user_text(text).content[0] is Text);
    assert(user_text(fat).content[0] is Text);
}

/// Appending marks no message and brings no stale mark back, and the messages so
/// far stay as they are; only a last turn of tool results may still grow.
pub proof fn appending_never_rewrites(
    c: ConversationView,
    text: Seq<char>,
    id: Seq<char>,
    output: ToolOutputView,
    resp: ResponseView,
)
    ensures
        c.messages.is_prefix_of(c.with_user(text).messages),
        c.messages.is_prefix_of(c.with_response(resp).messages),
        c.messages.len() == 0 || !is_tool_only(c.messages.last()) ==> c.messages.is_prefix_of(
            c.with_tool_result(id, output).messages,
        ),
        c.messages.len() > 0 ==> c.messages.drop_last().is_prefix_of(
            c.with_tool_result(id, output).messages,
        ),
        c.with_user(text).volatile_index() == c.volatile_index(),
        c.with_response(resp).volatile_index() == c.volatile_index(),
        c.with_tool_result(id, output).volatile_index() == c.volatile_index(),
{
}

/// Results of one multi-tool turn land in one user message, in order, whatever
/// came before them.
pub proof fn tool_results_share_a_turn(
    c: ConversationView,
    id1: Seq<char>,
    output1: ToolOutputView,
    id2: Seq<char>,
    output2: ToolOutputView,
)
    ensures
        is_tool_only(c.with_tool_result(id1, output1).messages.last()),
        ({
            let one = c.with_tool_result(id1, output1);
            let two = one.with_tool_result(id2, output2);
            &&& two.messages.len() == one.messages.len()
            &&& two.messages.drop_last() == one.messages.drop_last()
            &&& two.messages.last().role == Role::User
            &&& two.messages.last().content == one.messages.last().content.push(
                ContentBlockView::ToolResult { id: id2, output: output2 },
            )
        }),
{
    let one = c.with_tool_result(id1, output1);
    let last = one.messages.last();
    assert forall|i: int| 0 <= i < last.content.len() implies #[trigger] last.content[i] is ToolResult by {
        if c.messages.len() > 0 && is_tool_only(c.messages.last()) {
            if i < last.content.len() - 1 {
                assert(last.content[i] == c.messages.last().content[i]);
            }
        }
    }
    let two = one.with_tool_result(id2, output2);
    assert(two.messages.drop_last() =~= one.messages.drop_last());
}

/// A turn of tool results never joins text or an assistant turn.
pub proof fn tool_results_open_a_turn(c: ConversationView, id: Seq<char>, output: ToolOutputView)
    requires
        c.messages.len() > 0,
        c.messages.last().role == Role::Assistant || is_user_text(c.messages.last()),
    ensures
        c.with_tool_result(id, output).messages.len() == c.messages.len() + 1,
        c.with_tool_result(id, output).messages.last() == (MessageView {
            role: Role::User,
            content: seq![ContentBlockView::ToolResult { id, output }],
        }),
{
}

/// Demotion changes the content of the marked message and clears the mark:
/// roles, count, the other messages, the pin and the cache key all stay.
pub proof fn demotion_is_content_only(c: ConversationView, stub: Seq<char>)
    ensures
        ({
            let d = c.with_demoted(stub);
            &&& d.messages.len() == c.messages.len()
            &&& forall|i: int|
                0 <= i < c.messages.len() ==> (#[trigger] d.messages[i]).role == c.messages[i].role
            &&& forall|i: int|
                0 <= i < c.messages.len() && c.volatile != Some(i as usize)
                    ==> #[trigger] d.messages[i] == c.messages[i]
            &&& d.provider == c.provider
            &&& d.cache_key == c.cache_key
            &&& c.demote_refusal() is None ==> {
                &&& d.volatile is None
                &&& d.messages[c.volatile->0 as int].content == seq![content::plain_text(stub)]
            }
        }),
{
}

/// A rotation stubs the old state block, appends the new one, and marks exactly
/// that: what stood before the old block is still there.
pub proof fn rotation_moves_the_mark(c: ConversationView, stub: Seq<char>, fat: Seq<char>)
    requires
        c.well_formed(),
        c.messages.len() <= usize::MAX,
    ensures
        ({
            let r = c.with_rotated(stub, fat);
            &&& r.messages.len() == c.messages.len() + 1
            &&& r.volatile_index() == Some(c.messages.len() as usize)
            &&& r.messages.last() == user_text(fat)
            &&& forall|i: int|
                0 <= i < c.messages.len() && c.volatile_index() != Some(i as usize)
                    ==> #[trigger] r.messages[i] == c.messages[i]
            &&& c.volatile_index() matches Some(i) ==> r.messages[i as int] == user_text(stub)
            &&& r.provider == c.provider
            &&& r.cache_key == c.cache_key
        }),
{
}

/// The cache key stays the same for the lifetime of a conversation.
pub proof fn cache_key_is_stable(
    c: ConversationView,
    text: Seq<char>,
    fat: Seq<char>,
    id: Seq<char>,
    output: ToolOutputView,
    resp: ResponseView,
)
    ensures
        c.with_user(text).cache_key == c.cache_key,
        c.with_volatile_user(text).cache_key == c.cache_key,
        c.with_demoted(text).cache_key == c.cache_key,
        c.with_rotated(text, fat).cache_key == c.cache_key,
        c.with_tool_result(id, output).cache_key == c.cache_key,
        c.with_response(resp).cache_key == c.cache_key,
{
}

/// Only a response changes the pin, and then to its own provider.
pub proof fn only_responses_pin(
    c: ConversationView,
    text: Seq<char>,
    fat: Seq<char>,
    id: Seq<char>,
    output: ToolOutputView,
    resp: ResponseView,
)
    ensures
        c.with_user(text).provider == c.provider,
        c.with_volatile_user(text).provider == c.provider,
        c.with_demoted(text).provider == c.provider,
        c.with_rotated(text, fat).provider == c.provider,
        c.with_tool_result(id, output).provider == c.provider,
        c.with_response(resp).provider == Some(resp.provider),
{
}

/// Distinct conversations get distinct cache keys: keys are equal only for the
/// same opening time and the same serial number. Every key starts alike.
pub proof fn cache_keys_are_distinct(nanos1: nat, serial1: nat, nanos2: nat, serial2: nat)
    ensures
        "lab9-"@.is_prefix_of(cache_key_text(nanos1, serial1)),
        cache_key_text(nanos1, serial1) == cache_key_text(nanos2, serial2) ==> nanos1 == nanos2
            && serial1 == serial2,
{
    reveal_strlit("lab9-");
    reveal_strlit("-");
    let (a1, b1) = (text::hex(nanos1), text::hex(serial1));
    let (a2, b2) = (text::hex(nanos2), text::hex(serial2));
    let k1 = cache_key_text(nanos1, serial1);
    let k2 = cache_key_text(nanos2, serial2);
    assert("lab9-"@ =~= k1.subrange(0, 5));
    if k1 == k2 {
        text::lemma_hex_chars(nanos1);
        text::lemma_hex_chars(nanos2);
        assert(k1[5 + a1.len() as int] == '-');
        assert(k2[5 + a2.len() as int] == '-');
        if a1.len() < a2.len() {
            assert(k2[5 + a1.len() as int] == a2[a1.len() as int]);
        }
        if a2.len() < a1.len() {
            assert(k1[5 + a2.len() as int] == a1[a2.len() as int]);
        }
        assert(a1 =~= k1.subrange(5, 5 + a1.len() as int));
        assert(a2 =~= k2.subrange(5, 5 + a2.len() as int));
        assert(b1 =~= k1.subrange(6 + a1.len() as int, k1.len() as int));
        assert(b2 =~= k2.subrange(6 + a2.len() as int, k2.len() as int));
        text::lemma_hex_injective(nanos1, nanos2);
        text::lemma_hex_injective(serial1, serial2);
    }
}

/// A message is seen by its role and its blocks, in order; so are messages.
pub proof fn messages_are_seen_whole(messages: Seq<Message>, at: int, i: int)
    ensures
        messages_view(messages).len() == messages.len(),
        0 <= at < messages.len() ==> {
            let seen = messages_view(messages)[at];
            &&& seen.role == messages[at].role
            &&& seen.content.len() == messages[at].content@.len()
            &&& 0 <= i < seen.content.len() ==> seen.content[i] == messages[at].content@[i]@
        },
{
}

/// A conversation starts with its key and nothing else.
pub proof fn conversations_start_empty(cache_key: Seq<char>)
    ensures
        ({
            let c = ConversationView::fresh(cache_key);
            &&& c.messages.len() == 0
            &&& c.provider is None
            &&& c.cache_key == cache_key
            &&& c.volatile is None
        }),
{
}

/// A cache key is made of the opening time and the serial number.
pub proof fn cache_keys_are_spelled_out(nanos: nat, serial: nat)
    ensures
        cache_key_text(nanos, serial) == "lab9-"@ + text::hex(nanos) + "-"@ + text::hex(serial),
{
}

/// The marked message is the one under the mark, and none where the mark points
/// behind the end.
pub proof fn marks_point_into_the_transcript(c: ConversationView)
    ensures
        match c.volatile {
            Some(i) => if i < c.messages.len() {
                c.volatile_index() == Some(i)
            } else {
                c.volatile_index() is None
            },
            None => c.volatile_index() is None,
        },
{
}

/// A text of the user becomes a user turn of that text alone, behind all others;
/// marked, where it is volatile, as the one message that may be rewritten.
pub proof fn user_texts_become_turns(c: ConversationView, text: Seq<char>)
    requires
        c.messages.len() < usize::MAX,
    ensures
        ({
            let turn = MessageView {
                role: Role::User,
                content: seq![ContentBlockView::Text { text, extras: None }],
            };
            &&& c.with_user(text).messages == c.messages.push(turn)
            &&& c.with_volatile_user(text).messages == c.messages.push(turn)
            &&& c.with_volatile_user(text).volatile == Some(c.messages.len() as usize)
            &&& c.with_user(text).volatile == if c.volatile is Some && c.volatile->0
                < c.messages.len() {
                c.volatile
            } else {
                None
            }
        }),
{
}

/// A turn of the assistant is recorded as it is, behind all others.
pub proof fn responses_become_turns(c: ConversationView, resp: ResponseView)
    ensures
        c.with_response(resp).messages == c.messages.push(resp.message),
        c.with_response(resp).provider == Some(resp.provider),
        c.with_response(resp).volatile == if c.volatile is Some && c.volatile->0
            < c.messages.len() {
            c.volatile
        } else {
            None
        },
{
}

/// A tool result is the last block of the last turn, a user turn, under the id of
/// its call and with what the tool put out. It joins a last user turn that holds
/// tool results alone and keeps what that holds; else it stands in a turn of its
/// own. Everything before is as it was.
pub proof fn tool_results_are_recorded(c: ConversationView, id: Seq<char>, output: ToolOutputView)
    ensures
        ({
            let next = c.with_tool_result(id, output);
            let block = ContentBlockView::ToolResult { id, output };
            let joins = c.messages.len() > 0 && c.messages.last().role == Role::User && (forall|
                i: int,
            |
                0 <= i < c.messages.last().content.len()
                    ==> #[trigger] c.messages.last().content[i] is ToolResult);
            &&& next.messages.len() > 0
            &&& next.messages.last().role == Role::User
            &&& joins ==> {
                &&& next.messages.drop_last() == c.messages.drop_last()
                &&& next.messages.last().content == c.messages.last().content.push(block)
            }
            &&& !joins ==> {
                &&& next.messages.drop_last() == c.messages
                &&& next.messages.last().content == seq![block]
            }
            &&& next.volatile == if c.volatile is Some && c.volatile->0 < c.messages.len() {
                c.volatile
            } else {
                None
            }
        }),
{
    let next = c.with_tool_result(id, output);
    if c.messages.len() > 0 && is_tool_only(c.messages.last()) {
        assert(next.messages.drop_last() =~= c.messages.drop_last());
    } else {
        assert(next.messages.drop_last() =~= c.messages);
    }
}

/// The marked message can be demoted exactly where it is a user turn that starts
/// with text. What keeps it from being demoted is told, and it is left alone then,
/// save that a mark behind the end is cleared; else it is the stub and nothing
/// more, without the mark.
pub proof fn demotions_are_followed(c: ConversationView, stub: Seq<char>)
    ensures
        match c.volatile {
            None => {
                &&& c.demote_refusal() == Some("no volatile message to demote"@)
                &&& c.with_demoted(stub) == c
            },
            Some(i) => if i >= c.messages.len() {
                &&& c.demote_refusal() == Some("volatile index is out of range"@)
                &&& c.with_demoted(stub).messages == c.messages
                &&& c.with_demoted(stub).volatile is None
            } else if c.messages[i as int].role == Role::Assistant {
                &&& c.demote_refusal() == Some("volatile message is not a user turn"@)
                &&& c.with_demoted(stub) == c
            } else if c.messages[i as int].content.len() == 0 || !(c.messages[i as int].content[0]
                is Text) {
                &&& c.demote_refusal() == Some(
                    "volatile message is not user text; kind-preserving tool_result demotion is not shipped yet"@,
                )
                &&& c.with_demoted(stub) == c
            } else {
                &&& c.demote_refusal() is None
                &&& c.with_demoted(stub).messages == c.messages.update(
                    i as int,
                    MessageView {
                        role: Role::User,
                        content: seq![ContentBlockView::Text { text: stub, extras: None }],
                    },
                )
                &&& c.with_demoted(stub).volatile is None
            },
        },
{
}

/// A rotation is a demotion of what is marked, where it can be demoted, and then a
/// new volatile text.
pub proof fn rotations_demote_and_append(c: ConversationView, stub: Seq<char>, fat: Seq<char>)
    ensures
        c.with_rotated(stub, fat) == c.with_demoted(stub).with_volatile_user(fat),
{
}

/// A conversation is well formed exactly where its mark, if it has one, is on a
/// user turn of one text.
pub proof fn well_formed_marks_are_texts(c: ConversationView)
    ensures
        c.well_formed() <==> match c.volatile {
            Some(i) => {
                &&& i < c.messages.len()
                &&& c.messages[i as int].role == Role::User
                &&& c.messages[i as int].content.len() == 1
                &&& c.messages[i as int].content[0] is Text
            },
            None => true,
        },
{
}

/// A conversation that is taken up again holds what was saved of it, and no mark.
pub proof fn restored_conversations_are_whole(
    messages: Vec<Message>,
    provider: Option<ProviderKind>,
    cache_key: String,
    r: Conversation,
)
    requires
        call_ensures(Conversation::restore, (messages, provider, cache_key), r),
    ensures
        r@.messages == messages_view(messages@),
        r@.provider == provider,
        r@.cache_key == cache_key@,
        r@.volatile is None,
{
}

} // verus!
