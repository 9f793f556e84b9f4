//! The calls of tools and their results in the messages to a model: a message with
//! results holds nothing else, comes from the user, and answers just the calls of
//! the message before it; a message with calls comes from the assistant, and is
//! answered by the message after it.
use vstd::prelude::*;

use crate::error::McpError;
use crate::text::str_eq;
use crate::types::content::RoleType;
use crate::types::sampling::{SamplingContent, SamplingMessage, SamplingMessageContentBlock};

verus! {

/// Results stand with other content, or are not the user's.
pub const MIXED_CONTENT: &'static str = "Tool results mixed with other content";

/// Calls and results do not go together.
pub const MISSING_RESULT: &'static str = "Tool result missing in request";

/// One of the blocks is a call.
pub open spec fn has_use(blocks: Seq<SamplingMessageContentBlock>) -> bool {
    exists|i: int| 0 <= i < blocks.len() && (#[trigger] blocks[i]) is ToolUse
}

/// One of the blocks is a result.
pub open spec fn has_result(blocks: Seq<SamplingMessageContentBlock>) -> bool {
    exists|i: int| 0 <= i < blocks.len() && (#[trigger] blocks[i]) is ToolResult
}

/// Each of the blocks is a result.
pub open spec fn only_results(blocks: Seq<SamplingMessageContentBlock>) -> bool {
    forall|i: int| 0 <= i < blocks.len() ==> (#[trigger] blocks[i]) is ToolResult
}

/// A block is the call of this name.
pub open spec fn is_use_of(b: SamplingMessageContentBlock, id: Seq<char>) -> bool {
    b is ToolUse && b->ToolUse_0.id@ == id
}

/// A block is the result of this call.
pub open spec fn is_result_of(b: SamplingMessageContentBlock, id: Seq<char>) -> bool {
    b is ToolResult && b->ToolResult_0.tool_use_id@ == id
}

/// The names of the calls.
pub open spec fn use_ids(blocks: Seq<SamplingMessageContentBlock>) -> Set<Seq<char>> {
    Set::new(
        |id: Seq<char>|
            exists|i: int| 0 <= i < blocks.len() && is_use_of(#[trigger] blocks[i], id),
    )
}

/// The names of the calls that results answer.
pub open spec fn result_ids(blocks: Seq<SamplingMessageContentBlock>) -> Set<Seq<char>> {
    Set::new(
        |id: Seq<char>|
            exists|i: int| 0 <= i < blocks.len() && is_result_of(#[trigger] blocks[i], id),
    )
}

/// The blocks of the message at place `i`.
pub open spec fn at(messages: Seq<SamplingMessage>, i: int) -> Seq<SamplingMessageContentBlock> {
    messages[i].content.blocks()
}

/// The results at place `i`, if there are any, stand as they must.
pub open spec fn results_stand(messages: Seq<SamplingMessage>, i: int) -> bool {
    has_result(at(messages, i)) ==> {
        &&& only_results(at(messages, i))
        &&& messages[i].role == RoleType::User
        &&& i > 0
        &&& has_use(at(messages, i - 1))
        &&& use_ids(at(messages, i - 1)) == result_ids(at(messages, i))
    }
}

/// The calls at place `i`, if there are any, stand as they must.
pub open spec fn uses_stand(messages: Seq<SamplingMessage>, i: int) -> bool {
    has_use(at(messages, i)) ==> {
        &&& messages[i].role == RoleType::Assistant
        &&& i + 1 < messages.len()
        &&& has_result(at(messages, i + 1))
        &&& only_results(at(messages, i + 1))
        &&& use_ids(at(messages, i)) == result_ids(at(messages, i + 1))
    }
}

/// Calls and results at place `i` stand as they must.
pub open spec fn stand(messages: Seq<SamplingMessage>, i: int) -> bool {
    results_stand(messages, i) && uses_stand(messages, i)
}

/// Calls and results stand as they must throughout.
pub open spec fn well_ordered(messages: Seq<SamplingMessage>) -> bool {
    forall|i: int| 0 <= i < messages.len() ==> #[trigger] stand(messages, i)
}

/// What is wrong with the results at place `i`, if anything is.
pub open spec fn results_fault(messages: Seq<SamplingMessage>, i: int) -> Option<Seq<char>> {
    if results_stand(messages, i) {
        None
    } else if !only_results(at(messages, i)) || messages[i].role != RoleType::User {
        Some(MIXED_CONTENT@)
    } else {
        Some(MISSING_RESULT@)
    }
}

/// What is wrong with the calls at place `i`, if anything is.
pub open spec fn uses_fault(messages: Seq<SamplingMessage>, i: int) -> Option<Seq<char>> {
    if uses_stand(messages, i) {
        None
    } else if messages[i].role == RoleType::Assistant && i + 1 < messages.len() && has_result(
        at(messages, i + 1),
    ) && !only_results(at(messages, i + 1)) {
        Some(MIXED_CONTENT@)
    } else {
        Some(MISSING_RESULT@)
    }
}

/// The first thing that is wrong, from place `i` on.
pub open spec fn fault_from(messages: Seq<SamplingMessage>, i: int) -> Option<Seq<char>>
    decreases messages.len() - i,
{
    if i < 0 || i >= messages.len() {
        None
    } else if results_fault(messages, i) is Some {
        results_fault(messages, i)
    } else if uses_fault(messages, i) is Some {
        uses_fault(messages, i)
    } else {
        fault_from(messages, i + 1)
    }
}

fn contains_tool_use(content: &SamplingContent) -> (r: bool)
    ensures
        r == has_use(content.blocks()),
{
    let n: usize = content.count();
    let mut i: usize = 0;
    while i < n
        invariant
            i <= n,
            n == content.blocks().len(),
            forall|k: int| 0 <= k < i ==> !((#[trigger] content.blocks()[k]) is ToolUse),
        decreases n - i,
    {
        match content.block(i) {
            SamplingMessageContentBlock::ToolUse(_) => {
                assert(content.blocks()[i as int] is ToolUse);
                return true;
            },
            _ => {},
        }
        i = i + 1;
    }
    false
}

fn contains_tool_result(content: &SamplingContent) -> (r: bool)
    ensures
        r == has_result(content.blocks()),
{
    let n: usize = content.count();
    let mut i: usize = 0;
    while i < n
        invariant
            i <= n,
            n == content.blocks().len(),
            forall|k: int| 0 <= k < i ==> !((#[trigger] content.blocks()[k]) is ToolResult),
        decreases n - i,
    {
        match content.block(i) {
            SamplingMessageContentBlock::ToolResult(_) => {
                assert(content.blocks()[i as int] is ToolResult);
                return true;
            },
            _ => {},
        }
        i = i + 1;
    }
    false
}

fn holds_only_results(content: &SamplingContent) -> (r: bool)
    ensures
        r == only_results(content.blocks()),
{
    let n: usize = content.count();
    let mut i: usize = 0;
    while i < n
        invariant
            i <= n,
            n == content.blocks().len(),
            forall|k: int| 0 <= k < i ==> (#[trigger] content.blocks()[k]) is ToolResult,
        decreases n - i,
    {
        match content.block(i) {
            SamplingMessageContentBlock::ToolResult(_) => {},
            _ => {
                assert(!(content.blocks()[i as int] is ToolResult));
                return false;
            },
        }
        i = i + 1;
    }
    true
}

fn calls(content: &SamplingContent, id: &str) -> (r: bool)
    ensures
        r == use_ids(content.blocks()).contains(id@),
{
    let n: usize = content.count();
    let mut i: usize = 0;
    while i < n
        invariant
            i <= n,
            n == content.blocks().len(),
            forall|k: int| 0 <= k < i ==> !is_use_of(#[trigger] content.blocks()[k], id@),
        decreases n - i,
    {
        match content.block(i) {
            SamplingMessageContentBlock::ToolUse(u) => {
                if str_eq(u.id.as_str(), id) {
                    assert(is_use_of(content.blocks()[i as int], id@));
                    return true;
                }
            },
            _ => {},
        }
        i = i + 1;
    }
    false
}

fn answers(content: &SamplingContent, id: &str) -> (r: bool)
    ensures
        r == result_ids(content.blocks()).contains(id@),
{
    let n: usize = content.count();
    let mut i: usize = 0;
    while i < n
        invariant
            i <= n,
            n == content.blocks().len(),
            forall|k: int| 0 <= k < i ==> !is_result_of(#[trigger] content.blocks()[k], id@),
        decreases n - i,
    {
        match content.block(i) {
            SamplingMessageContentBlock::ToolResult(t) => {
                if str_eq(t.tool_use_id.as_str(), id) {
                    assert(is_result_of(content.blocks()[i as int], id@));
                    return true;
                }
            },
            _ => {},
        }
        i = i + 1;
    }
    false
}

/// Tells whether the results answer just the calls.
fn answered(uses: &SamplingContent, results: &SamplingContent) -> (r: bool)
    ensures
        r == (use_ids(uses.blocks()) == result_ids(results.blocks())),
{
    let ghost us = use_ids(uses.blocks());
    let ghost rs = result_ids(results.blocks());
    let n: usize = uses.count();
    let mut i: usize = 0;
    while i < n
        invariant
            i <= n,
            n == uses.blocks().len(),
            us == use_ids(uses.blocks()),
            rs == result_ids(results.blocks()),
            forall|k: int, id: Seq<char>|
                0 <= k < i && is_use_of(#[trigger] uses.blocks()[k], id) ==> #[trigger] rs.contains(
                    id,
                ),
        decreases n - i,
    {
        match uses.block(i) {
            SamplingMessageContentBlock::ToolUse(u) => {
                if !answers(results, u.id.as_str()) {
                    assert(is_use_of(uses.blocks()[i as int], u.id@));
                    assert(us.contains(u.id@));
                    return false;
                }
            },
            _ => {},
        }
        i = i + 1;
    }
    let m: usize = results.count();
    let mut j: usize = 0;
    while j < m
        invariant
            j <= m,
            m == results.blocks().len(),
            us == use_ids(uses.blocks()),
            rs == result_ids(results.blocks()),
            forall|k: int, id: Seq<char>|
                0 <= k < j && is_result_of(#[trigger] results.blocks()[k], id)
                    ==> #[trigger] us.contains(id),
        decreases m - j,
    {
        match results.block(j) {
            SamplingMessageContentBlock::ToolResult(t) => {
                if !calls(uses, t.tool_use_id.as_str()) {
                    assert(is_result_of(results.blocks()[j as int], t.tool_use_id@));
                    assert(rs.contains(t.tool_use_id@));
                    return false;
                }
            },
            _ => {},
        }
        j = j + 1;
    }
    proof {
        assert forall|id: Seq<char>| us.contains(id) == rs.contains(id) by {
            if us.contains(id) {
                let k = choose|k: int|
                    0 <= k < uses.blocks().len() && is_use_of(#[trigger] uses.blocks()[k], id);
                assert(is_use_of(uses.blocks()[k], id));
            }
            if rs.contains(id) {
                let k = choose|k: int|
                    0 <= k < results.blocks().len() && is_result_of(
                        #[trigger] results.blocks()[k],
                        id,
                    );
                assert(is_result_of(results.blocks()[k], id));
            }
        }
        assert(us =~= rs);
    }
    true
}

/// Tells whether calls and results stand as they must, or what is wrong first.
pub fn validate_tool_use_result_messages(messages: &Vec<SamplingMessage>) -> (r: Result<
    (),
    McpError,
>)
    ensures
        r is Ok <==> well_ordered(messages@),
        match r {
            Ok(()) => fault_from(messages@, 0) is None,
            Err(McpError::InvalidArgument(m)) => fault_from(messages@, 0) == Some(m@),
            Err(_) => false,
        },
{
    let ghost ms = messages@;
    let mut i: usize = 0;
    while i < messages.len()
        invariant
            i <= messages.len(),
            ms == messages@,
            fault_from(ms, 0) == fault_from(ms, i as int),
            forall|k: int| 0 <= k < i ==> #[trigger] stand(ms, k),
        decreases messages.len() - i,
    {
        let message = &messages[i];
        let content = &message.content;
        assert(at(ms, i as int) == content.blocks());
        if contains_tool_result(content) {
            let alone = holds_only_results(content);
            let from_user = message.role == RoleType::User;
            if !alone || !from_user {
                assert(!results_stand(ms, i as int) && !stand(ms, i as int));
                return Err(McpError::argument(MIXED_CONTENT.to_owned()));
            }
            if i == 0 {
                assert(!results_stand(ms, i as int) && !stand(ms, i as int));
                return Err(McpError::argument(MISSING_RESULT.to_owned()));
            }
            let previous = &messages[i - 1].content;
            assert(at(ms, i - 1) == previous.blocks());
            if !contains_tool_use(previous) || !answered(previous, content) {
                assert(!results_stand(ms, i as int) && !stand(ms, i as int));
                return Err(McpError::argument(MISSING_RESULT.to_owned()));
            }
        }
        assert(results_stand(ms, i as int));
        if contains_tool_use(content) {
            if message.role != RoleType::Assistant || i + 1 >= messages.len() {
                assert(!uses_stand(ms, i as int) && !stand(ms, i as int));
                return Err(McpError::argument(MISSING_RESULT.to_owned()));
            }
            let next = &messages[i + 1].content;
            assert(at(ms, i + 1) == next.blocks());
            if !contains_tool_result(next) {
                assert(!uses_stand(ms, i as int) && !stand(ms, i as int));
                return Err(McpError::argument(MISSING_RESULT.to_owned()));
            }
            if !holds_only_results(next) {
                assert(!uses_stand(ms, i as int) && !stand(ms, i as int));
                return Err(McpError::argument(MIXED_CONTENT.to_owned()));
            }
            if !answered(content, next) {
                assert(!uses_stand(ms, i as int) && !stand(ms, i as int));
                return Err(McpError::argument(MISSING_RESULT.to_owned()));
            }
        }
        assert(uses_stand(ms, i as int));
        i = i + 1;
        assert(stand(ms, i - 1));
    }
    Ok(())
}

} // verus!
