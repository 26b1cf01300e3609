//! Core data types for harness blocks.
//!
//! A harness block is an immutable record of one interaction unit (prompt,
//! response, tool call, ...) captured from an agent harness session.
use vstd::prelude::*;
use vstd::string::*;

use crate::json::{Json, JsonView};
use crate::text::{joined, same_text};

verus! {

/// The kind of content a block carries.
#[derive(Debug, Clone, Copy, PartialEq, Eq, Structural, Hash)]
pub enum BlockType {
    Spawn,
    SystemPrompt,
    PromptSegment,
    UserPrompt,
    Response,
    ResponseChunk,
    ToolCall,
    ToolResult,
    PtyRaw,
    Exit,
}

impl BlockType {
    pub const ALL: [BlockType; 10] = [
        BlockType::Spawn,
        BlockType::SystemPrompt,
        BlockType::PromptSegment,
        BlockType::UserPrompt,
        BlockType::Response,
        BlockType::ResponseChunk,
        BlockType::ToolCall,
        BlockType::ToolResult,
        BlockType::PtyRaw,
        BlockType::Exit,
    ];

    /// The name under which the type is stored and exchanged.
    pub open spec fn name(self) -> Seq<char> {
        match self {
            BlockType::Spawn => "spawn"@,
            BlockType::SystemPrompt => "system_prompt"@,
            BlockType::PromptSegment => "prompt_segment"@,
            BlockType::UserPrompt => "user_prompt"@,
            BlockType::Response => "response"@,
            BlockType::ResponseChunk => "response_chunk"@,
            BlockType::ToolCall => "tool_call"@,
            BlockType::ToolResult => "tool_result"@,
            BlockType::PtyRaw => "pty_raw"@,
            BlockType::Exit => "exit"@,
        }
    }

    pub fn as_str(&self) -> (r: &'static str)
        ensures
            r@ == self.name(),
    {
        match self {
            BlockType::Spawn => "spawn",
            BlockType::SystemPrompt => "system_prompt",
            BlockType::PromptSegment => "prompt_segment",
            BlockType::UserPrompt => "user_prompt",
            BlockType::Response => "response",
            BlockType::ResponseChunk => "response_chunk",
            BlockType::ToolCall => "tool_call",
            BlockType::ToolResult => "tool_result",
            BlockType::PtyRaw => "pty_raw",
            BlockType::Exit => "exit",
        }
    }

    /// The name as an owned string.
    pub fn to_string(&self) -> (r: String)
        ensures
            r@ == self.name(),
    {
        self.as_str().to_string()
    }

    /// The type that `s` names.
    pub fn from_name(s: &str) -> (r: Result<BlockType, UnknownBlockType>)
        ensures
            match r {
                Ok(t) => t.name() == s@,
                Err(e) => e.0@ == s@ && forall|t: BlockType| #[trigger] t.name() != s@,
            },
            forall|t: BlockType| #[trigger] t.name() == s@ ==> r == Ok::<_, UnknownBlockType>(t),
    {
        let mut i: usize = 0;
        while i < 10
            invariant
                i <= 10,
                forall|j: int| 0 <= j < i ==> (#[trigger] BlockType::ALL@[j]).name() != s@,
            decreases 10 - i,
        {
            let t = BlockType::ALL[i];
            if same_text(t.as_str(), s) {
                proof {
                    assert forall|u: BlockType| #[trigger] u.name() == s@ implies u == t by {
                        law_block_type_names_distinct(t, u);
                    }
                }
                return Ok(t);
            }
            i = i + 1;
        }
        proof {
            assert forall|t: BlockType| #[trigger] t.name() != s@ by {
                law_block_types_all_listed(t);
                let j = choose|j: int| 0 <= j < 10 && BlockType::ALL@[j] == t;
                assert(BlockType::ALL@[j].name() != s@);
            }
        }
        Err(UnknownBlockType(s.to_string()))
    }
}

/// Every block type stands in [`BlockType::ALL`].
pub proof fn law_block_types_all_listed(t: BlockType)
    ensures
        exists|j: int| 0 <= j < 10 && #[trigger] BlockType::ALL@[j] == t,
{
    let all = BlockType::ALL@;
    match t {
        BlockType::Spawn => assert(all[0] == t),
        BlockType::SystemPrompt => assert(all[1] == t),
        BlockType::PromptSegment => assert(all[2] == t),
        BlockType::UserPrompt => assert(all[3] == t),
        BlockType::Response => assert(all[4] == t),
        BlockType::ResponseChunk => assert(all[5] == t),
        BlockType::ToolCall => assert(all[6] == t),
        BlockType::ToolResult => assert(all[7] == t),
        BlockType::PtyRaw => assert(all[8] == t),
        BlockType::Exit => assert(all[9] == t),
    }
}

/// No two block types share a name, so that a name read back gives the type
/// that wrote it.
pub proof fn law_block_type_names_distinct(a: BlockType, b: BlockType)
    ensures
        a.name() == b.name() ==> a == b,
{
    reveal_strlit("spawn");
    assert("spawn"@.len() == 5);
    reveal_strlit("system_prompt");
    assert("system_prompt"@.len() == 13);
    reveal_strlit("prompt_segment");
    assert("prompt_segment"@.len() == 14);
    reveal_strlit("user_prompt");
    assert("user_prompt"@.len() == 11);
    reveal_strlit("response");
    assert("response"@.len() == 8);
    reveal_strlit("response_chunk");
    assert("response_chunk"@.len() == 14);
    reveal_strlit("tool_call");
    assert("tool_call"@.len() == 9);
    reveal_strlit("tool_result");
    assert("tool_result"@.len() == 11);
    reveal_strlit("pty_raw");
    assert("pty_raw"@.len() == 7);
    reveal_strlit("exit");
    assert("exit"@.len() == 4);
    assert("prompt_segment"@[0] != "response_chunk"@[0]);
    assert("user_prompt"@[0] != "tool_result"@[0]);
}

impl std::str::FromStr for BlockType {
    type Err = UnknownBlockType;

    fn from_str(s: &str) -> (r: Result<BlockType, UnknownBlockType>)
        ensures
            match r {
                Ok(t) => t.name() == s@,
                Err(e) => e.0@ == s@ && forall|t: BlockType| #[trigger] t.name() != s@,
            },
            forall|t: BlockType| #[trigger] t.name() == s@ ==> r == Ok::<_, UnknownBlockType>(t),
    {
        BlockType::from_name(s)
    }
}

/// Error returned when a string does not name a known [`BlockType`].
#[derive(Debug, Clone, PartialEq, Eq)]
pub struct UnknownBlockType(pub String);

impl UnknownBlockType {
    /// The message of the error.
    pub fn to_string(&self) -> (r: String)
        ensures
            r@ == "unknown block type: "@ + self.0@,
    {
        joined("unknown block type: ", self.0.as_str())
    }
}

/// How a harness session's traffic is intercepted.
#[derive(Debug, Clone, Copy, PartialEq, Eq, Structural)]
pub enum InterceptMode {
    Full,
    HooksOnly,
    Bypass,
}

impl InterceptMode {
    /// The name under which the mode is stored and exchanged.
    pub open spec fn name(self) -> Seq<char> {
        match self {
            InterceptMode::Full => "full"@,
            InterceptMode::HooksOnly => "hooks_only"@,
            InterceptMode::Bypass => "bypass"@,
        }
    }

    pub fn as_str(&self) -> (r: &'static str)
        ensures
            r@ == self.name(),
    {
        match self {
            InterceptMode::Full => "full",
            InterceptMode::HooksOnly => "hooks_only",
            InterceptMode::Bypass => "bypass",
        }
    }

    /// The name as an owned string.
    pub fn to_string(&self) -> (r: String)
        ensures
            r@ == self.name(),
    {
        self.as_str().to_string()
    }

    /// The mode that `s` names.
    pub fn from_name(s: &str) -> (r: Result<InterceptMode, UnknownInterceptMode>)
        ensures
            match r {
                Ok(m) => m.name() == s@,
                Err(e) => e.0@ == s@ && forall|m: InterceptMode| #[trigger] m.name() != s@,
            },
            forall|m: InterceptMode| #[trigger]
                m.name() == s@ ==> r == Ok::<_, UnknownInterceptMode>(m),
    {
        proof {
            assert forall|a: InterceptMode, b: InterceptMode| #[trigger]
                a.name() == #[trigger] b.name() implies a == b by {
                law_intercept_mode_names_distinct(a, b);
            }
            assert(InterceptMode::Full.name() == "full"@);
            assert(InterceptMode::HooksOnly.name() == "hooks_only"@);
            assert(InterceptMode::Bypass.name() == "bypass"@);
        }
        if same_text(s, "full") {
            Ok(InterceptMode::Full)
        } else if same_text(s, "hooks_only") {
            Ok(InterceptMode::HooksOnly)
        } else if same_text(s, "bypass") {
            Ok(InterceptMode::Bypass)
        } else {
            Err(UnknownInterceptMode(s.to_string()))
        }
    }
}

/// No two intercept modes share a name.
pub proof fn law_intercept_mode_names_distinct(a: InterceptMode, b: InterceptMode)
    ensures
        a.name() == b.name() ==> a == b,
{
    reveal_strlit("full");
    assert("full"@.len() == 4);
    reveal_strlit("hooks_only");
    assert("hooks_only"@.len() == 10);
    reveal_strlit("bypass");
    assert("bypass"@.len() == 6);
}

impl std::str::FromStr for InterceptMode {
    type Err = UnknownInterceptMode;

    fn from_str(s: &str) -> (r: Result<InterceptMode, UnknownInterceptMode>)
        ensures
            match r {
                Ok(t) => t.name() == s@,
                Err(e) => e.0@ == s@ && forall|t: InterceptMode| #[trigger] t.name() != s@,
            },
            forall|t: InterceptMode| #[trigger] t.name() == s@ ==> r == Ok::<_, UnknownInterceptMode>(t),
    {
        InterceptMode::from_name(s)
    }
}

/// Error returned when a string does not name a known [`InterceptMode`].
#[derive(Debug, Clone, PartialEq, Eq)]
pub struct UnknownInterceptMode(pub String);

impl UnknownInterceptMode {
    /// The message of the error.
    pub fn to_string(&self) -> (r: String)
        ensures
            r@ == "unknown intercept mode: "@ + self.0@,
    {
        joined("unknown intercept mode: ", self.0.as_str())
    }
}

// ── blocks ───────────────────────────────────────────────────────────────

/// A lower-case hexadecimal digit.
pub open spec fn hex_digit(c: char) -> bool {
    '0' <= c <= '9' || 'a' <= c <= 'f'
}

/// The hyphenated text of a random (version 4) UUID.
pub open spec fn random_uuid_text(s: Seq<char>) -> bool {
    &&& s.len() == 36
    &&& forall|i: int|
        0 <= i < 36 ==> if i == 8 || i == 13 || i == 18 || i == 23 {
            #[trigger] s[i] == '-'
        } else {
            hex_digit(s[i])
        }
    &&& s[14] == '4'
    &&& s[19] == '8' || s[19] == '9' || s[19] == 'a' || s[19] == 'b'
}

/// The bits of a random (version 4) UUID: the version, and the variant of RFC 4122.
pub open spec fn random_uuid(id: u128) -> bool {
    &&& (id >> 76) & 0xf == 4
    &&& (id >> 62) & 0x3 == 2
}

/// The place of character `i` of a hyphenated UUID among the digits.
pub open spec fn digit_place(i: int) -> int {
    if i < 8 {
        i
    } else if i < 13 {
        i - 1
    } else if i < 18 {
        i - 2
    } else if i < 23 {
        i - 3
    } else {
        i - 4
    }
}

/// The lower-case hexadecimal digit of a number below sixteen.
pub open spec fn hex_char(n: u128) -> char {
    if n < 10 {
        ('0' as u128 + n) as char
    } else {
        ('a' as u128 + (n - 10)) as char
    }
}

/// The hyphenated text of a UUID: its 32 digits in lower case, in groups of 8,
/// 4, 4, 4 and 12.
pub open spec fn hyphenated(id: u128) -> Seq<char> {
    Seq::new(
        36,
        |i: int|
            if i == 8 || i == 13 || i == 18 || i == 23 {
                '-'
            } else {
                hex_char((id >> ((124 - 4 * digit_place(i)) as u128)) & 0xf)
            },
    )
}

/// `uuid::Uuid::new_v4`, as the number that `uuid::Uuid::as_u128` gives: the
/// version is 4, and the variant that of RFC 4122. The other bits are left to
/// chance.
#[verifier::external_body]
pub(crate) fn random_id() -> (r: u128)
    ensures
        random_uuid(r),
{
    uuid::Uuid::new_v4().as_u128()
}

/// `uuid::Uuid::to_string` of the UUID with the given number: the hyphenated
/// text.
#[verifier::external_body]
fn id_text(id: u128) -> (r: String)
    ensures
        r@ == hyphenated(id),
{
    uuid::Uuid::from_u128(id).to_string()
}

proof fn lemma_random_uuid_text(id: u128)
    requires
        random_uuid(id),
    ensures
        random_uuid_text(hyphenated(id)),
{
    let s = hyphenated(id);
    assert forall|i: int| 0 <= i < 36 && !(i == 8 || i == 13 || i == 18 || i == 23) implies
        hex_digit(#[trigger] s[i]) by {
        let shifted: u128 = id >> ((124 - 4 * digit_place(i)) as u128);
        assert(shifted & 0xf < 16) by (bit_vector);
    }
    assert(s[14] == '4');
    let n: u128 = (id >> 60) & 0xf;
    assert(8 <= n <= 11) by (bit_vector)
        requires
            n == (id >> 60) & 0xf,
            (id >> 62) & 0x3 == 2,
    ;
    assert(s[19] == hex_char(n));
}

/// The text of a new random UUID.
pub(crate) fn fresh_id() -> (r: String)
    ensures
        random_uuid_text(r@),
{
    let id: u128 = random_id();
    proof {
        lemma_random_uuid_text(id);
    }
    id_text(id)
}

/// One immutable interaction unit from a harness session.
#[derive(Debug, Clone, PartialEq)]
pub struct HarnessBlock {
    pub id: String,
    pub session_id: String,
    pub parent_id: Option<String>,
    /// Which harness the block came from (e.g. "codex", "aider").
    pub harness_type: String,
    pub block_type: BlockType,
    /// Monotonic per-session sequence number.
    pub sequence: u32,
    /// Raw payload bytes; interpretation depends on `block_type`.
    pub content: Vec<u8>,
    /// Free-form structured metadata (JSON object expected, any document allowed).
    pub metadata: Json,
    /// Unix epoch milliseconds.
    pub timestamp: i64,
}

/// What a [`HarnessBlock`] says.
pub struct BlockView {
    pub id: Seq<char>,
    pub session_id: Seq<char>,
    pub parent_id: Option<Seq<char>>,
    pub harness_type: Seq<char>,
    pub block_type: BlockType,
    pub sequence: u32,
    pub content: Seq<u8>,
    pub metadata: JsonView,
    pub timestamp: i64,
}

/// The characters of an optional string.
pub open spec fn text_option(s: Option<String>) -> Option<Seq<char>> {
    match s {
        Some(t) => Some(t@),
        None => None,
    }
}

impl View for HarnessBlock {
    type V = BlockView;

    open spec fn view(&self) -> BlockView {
        BlockView {
            id: self.id@,
            session_id: self.session_id@,
            parent_id: text_option(self.parent_id),
            harness_type: self.harness_type@,
            block_type: self.block_type,
            sequence: self.sequence,
            content: self.content@,
            metadata: self.metadata@,
            timestamp: self.timestamp,
        }
    }
}

impl HarnessBlock {
    /// Create a block with a fresh UUID and `metadata` defaulting to `{}`.
    /// Other fields are taken as-is.
    #[must_use]
    pub fn new(
        session_id: &str,
        harness_type: &str,
        block_type: BlockType,
        sequence: u32,
        content: Vec<u8>,
        timestamp: i64,
    ) -> (r: HarnessBlock)
        ensures
            random_uuid_text(r@.id),
            r@ == (BlockView {
                id: r@.id,
                session_id: session_id@,
                parent_id: None,
                harness_type: harness_type@,
                block_type,
                sequence,
                content: content@,
                metadata: JsonView::Object(Map::empty()),
                timestamp,
            }),
    {
        HarnessBlock::with_id(
            fresh_id(),
            session_id,
            harness_type,
            block_type,
            sequence,
            content,
            timestamp,
        )
    }

    /// Create a block under a given id, with `metadata` defaulting to `{}`.
    pub fn with_id(
        id: String,
        session_id: &str,
        harness_type: &str,
        block_type: BlockType,
        sequence: u32,
        content: Vec<u8>,
        timestamp: i64,
    ) -> (r: HarnessBlock)
        ensures
            r@ == (BlockView {
                id: id@,
                session_id: session_id@,
                parent_id: None,
                harness_type: harness_type@,
                block_type,
                sequence,
                content: content@,
                metadata: JsonView::Object(Map::empty()),
                timestamp,
            }),
    {
        HarnessBlock {
            id,
            session_id: session_id.to_string(),
            parent_id: None,
            harness_type: harness_type.to_string(),
            block_type,
            sequence,
            content,
            metadata: Json::Object(Vec::new()),
            timestamp,
        }
    }
}

}
