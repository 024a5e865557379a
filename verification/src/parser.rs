//! The four-valued outcome of a rule, and the pending-block parser state
//! machine that drives the rule catalogue over the incoming line stream.

use vstd::prelude::*;

use crate::assets::FGExtraDataAssets;
use crate::catalog::apply_rule;
use crate::catalog::rule_eval;
use crate::catalog::rule_order;
use crate::catalog::rules;
use crate::catalog::scan_decide;
use crate::catalog::RuleId;
use crate::messages::FGGameMessage;
use crate::messages::GameMessageView;
use crate::text::split_all_lines;
use crate::text::split_lines_all;

verus! {

/// What a rule says about an input: a finished event, a request for more
/// lines, a fatal condition, or that the rule does not apply.
#[derive(Debug, Clone, PartialEq, Eq, Hash)]
pub enum ParseResult<T> {
    /// The input matched; the event is complete.
    Parsed(T),
    /// The input opens this rule's block but does not yet finish it.
    NeedMoreLines,
    /// The log's structure broke an assumption the rule depends on.
    Unreachable,
    /// The rule does not apply to this input.
    NoMatch,
}

impl<T: View> View for ParseResult<T> {
    type V = ParseResult<T::V>;

    open spec fn view(&self) -> ParseResult<T::V> {
        match self {
            ParseResult::Parsed(t) => ParseResult::Parsed(t@),
            ParseResult::NeedMoreLines => ParseResult::NeedMoreLines,
            ParseResult::Unreachable => ParseResult::Unreachable,
            ParseResult::NoMatch => ParseResult::NoMatch,
        }
    }
}

// ---------------------------------------------------------------------------
// The pending-block state machine
// ---------------------------------------------------------------------------

/// An in-progress multi-line match: the rule that asked for more lines and
/// the lines accumulated so far.
pub struct PendingBlock {
    pub rule: RuleId,
    pub buffer: String,
}

/// A condition the parser cannot recover from.
#[derive(Debug, Clone, Copy, PartialEq, Eq)]
pub enum ParserError {
    /// A rule reported a broken structural assumption.
    RuleFailed,
    /// The pending buffer grew past the line cap.
    BufferOverflow,
}

/// The number of buffered lines past which the parser gives up on a block.
pub const BUFFER_LINE_CAP: usize = 100;

/// The parser: at most one pending block exists at any time, held in the
/// one optional field.
pub struct LogParser {
    pub pending: Option<PendingBlock>,
}

/// What `parse_line` does when a block is pending: the line joins the
/// buffer; past the cap the parser fails; otherwise the pending rule alone
/// decides, and a pass abandons the block.
pub open spec fn pending_step_post(
    pb: PendingBlock,
    line: Seq<char>,
    assets: FGExtraDataAssets,
    new_pending: Option<PendingBlock>,
    r: Result<Option<FGGameMessage>, ParserError>,
) -> bool {
    let buf2 = pb.buffer@ + "\n"@ + line;
    if split_lines_all(buf2).len() > BUFFER_LINE_CAP {
        &&& r == Result::<Option<FGGameMessage>, ParserError>::Err(ParserError::BufferOverflow)
        &&& new_pending is None
    } else {
        match rule_eval(pb.rule, buf2, assets) {
            ParseResult::Parsed(v) => {
                &&& match r {
                    Result::Ok(Option::Some(m)) => m@ == v,
                    _ => false,
                }
                &&& new_pending is None
            },
            ParseResult::NeedMoreLines => {
                &&& r == Result::<Option<FGGameMessage>, ParserError>::Ok(Option::None)
                &&& match new_pending {
                    Option::Some(p2) => p2.rule == pb.rule && p2.buffer@ == buf2,
                    Option::None => false,
                }
            },
            ParseResult::Unreachable => {
                &&& r == Result::<Option<FGGameMessage>, ParserError>::Err(
                    ParserError::RuleFailed,
                )
                &&& new_pending is None
            },
            ParseResult::NoMatch => {
                &&& r == Result::<Option<FGGameMessage>, ParserError>::Ok(Option::None)
                &&& new_pending is None
            },
        }
    }
}

/// What `parse_line` does with no block pending: the catalogue scans the
/// line in order, and the first applicable rule decides.
pub open spec fn fresh_step_post(
    line: Seq<char>,
    assets: FGExtraDataAssets,
    new_pending: Option<PendingBlock>,
    r: Result<Option<FGGameMessage>, ParserError>,
) -> bool {
    match scan_decide(rule_order(), line, assets) {
        Option::None => {
            &&& r == Result::<Option<FGGameMessage>, ParserError>::Ok(Option::None)
            &&& new_pending is None
        },
        Option::Some((rid, outcome)) => match outcome {
            ParseResult::Parsed(v) => {
                &&& match r {
                    Result::Ok(Option::Some(m)) => m@ == v,
                    _ => false,
                }
                &&& new_pending is None
            },
            ParseResult::NeedMoreLines => {
                &&& r == Result::<Option<FGGameMessage>, ParserError>::Ok(Option::None)
                &&& match new_pending {
                    Option::Some(p2) => p2.rule == rid && p2.buffer@ == line,
                    Option::None => false,
                }
            },
            ParseResult::Unreachable => {
                &&& r == Result::<Option<FGGameMessage>, ParserError>::Err(
                    ParserError::RuleFailed,
                )
                &&& new_pending is None
            },
            ParseResult::NoMatch => false,
        },
    }
}

/// Two optional pending blocks agree up to the buffer's view.
pub open spec fn pending_view_eq(a: Option<PendingBlock>, b: Option<PendingBlock>) -> bool {
    match (a, b) {
        (Option::Some(x), Option::Some(y)) => x.rule == y.rule && x.buffer@ == y.buffer@,
        (Option::None, Option::None) => true,
        _ => false,
    }
}

/// Two parser answers agree up to the emitted event's view.
pub open spec fn result_view_eq(
    r1: Result<Option<FGGameMessage>, ParserError>,
    r2: Result<Option<FGGameMessage>, ParserError>,
) -> bool {
    match (r1, r2) {
        (Result::Ok(Option::Some(a)), Result::Ok(Option::Some(b))) => a@ == b@,
        (Result::Ok(Option::None), Result::Ok(Option::None)) => true,
        (Result::Err(e1), Result::Err(e2)) => e1 == e2,
        _ => false,
    }
}

/// Law: with a block pending, a parser step is a function of the pending
/// state's view and the line. Two steps from equal states on the same line
/// answer alike and leave equal states, so replaying the lines of a
/// committed buffer through a fresh run reproduces the very same events.
pub proof fn lemma_pending_step_deterministic(
    pb1: PendingBlock,
    pb2: PendingBlock,
    line: Seq<char>,
    assets: FGExtraDataAssets,
    np1: Option<PendingBlock>,
    r1: Result<Option<FGGameMessage>, ParserError>,
    np2: Option<PendingBlock>,
    r2: Result<Option<FGGameMessage>, ParserError>,
)
    requires
        pb1.rule == pb2.rule,
        pb1.buffer@ == pb2.buffer@,
        pending_step_post(pb1, line, assets, np1, r1),
        pending_step_post(pb2, line, assets, np2, r2),
    ensures
        result_view_eq(r1, r2),
        pending_view_eq(np1, np2),
{
}

/// Law: with no block pending, a parser step is a function of the line
/// alone; see `lemma_pending_step_deterministic`.
pub proof fn lemma_fresh_step_deterministic(
    line: Seq<char>,
    assets: FGExtraDataAssets,
    np1: Option<PendingBlock>,
    r1: Result<Option<FGGameMessage>, ParserError>,
    np2: Option<PendingBlock>,
    r2: Result<Option<FGGameMessage>, ParserError>,
)
    requires
        fresh_step_post(line, assets, np1, r1),
        fresh_step_post(line, assets, np2, r2),
    ensures
        result_view_eq(r1, r2),
        pending_view_eq(np1, np2),
{
}

/// Law: when the parser commits a pending block, re-invoking the owning
/// rule on the full buffer it just committed yields exactly the same
/// event. With `lemma_scan_hits`, a full catalogue scan of that buffer
/// reproduces it too whenever the earlier rules pass on it.
pub proof fn lemma_commit_replay(
    pb: PendingBlock,
    line: Seq<char>,
    assets: FGExtraDataAssets,
    new_pending: Option<PendingBlock>,
    r: Result<Option<FGGameMessage>, ParserError>,
    m: FGGameMessage,
)
    requires
        pending_step_post(pb, line, assets, new_pending, r),
        r == Result::<Option<FGGameMessage>, ParserError>::Ok(Option::Some(m)),
    ensures
        rule_eval(pb.rule, pb.buffer@ + "\n"@ + line, assets) == ParseResult::Parsed(m@),
{
}

/// Law: a line no rule matches is dropped silently, and no pending state
/// survives it: with a block open, the owning rule's pass abandons the
/// block, so the next line meets the full catalogue again.
pub proof fn lemma_abandoned_block_clears(
    pb: PendingBlock,
    line: Seq<char>,
    assets: FGExtraDataAssets,
    new_pending: Option<PendingBlock>,
    r: Result<Option<FGGameMessage>, ParserError>,
)
    requires
        pending_step_post(pb, line, assets, new_pending, r),
        rule_eval(pb.rule, pb.buffer@ + "\n"@ + line, assets) == ParseResult::<
            GameMessageView,
        >::NoMatch,
        split_lines_all(pb.buffer@ + "\n"@ + line).len() <= BUFFER_LINE_CAP,
    ensures
        r == Result::<Option<FGGameMessage>, ParserError>::Ok(Option::None),
        new_pending is None,
{
}

/// Law: the other half of the silent drop — with no block open, a line on
/// which every rule of the catalogue passes emits nothing and opens
/// nothing.
pub proof fn lemma_unmatched_line_dropped(
    line: Seq<char>,
    assets: FGExtraDataAssets,
    new_pending: Option<PendingBlock>,
    r: Result<Option<FGGameMessage>, ParserError>,
)
    requires
        fresh_step_post(line, assets, new_pending, r),
        forall|j: int|
            0 <= j < rule_order().len() ==> rule_eval(rule_order()[j], line, assets)
                == ParseResult::<GameMessageView>::NoMatch,
    ensures
        r == Result::<Option<FGGameMessage>, ParserError>::Ok(Option::None),
        new_pending is None,
{
    crate::catalog::lemma_scan_all_pass(rule_order(), line, assets);
}

impl LogParser {
    /// A parser with no pending block.
    pub fn new() -> (r: Self)
        ensures
            r.pending is None,
    {
        LogParser { pending: None }
    }

    /// Feed one line. At most one block is ever pending: when one is, its
    /// rule alone sees the line joined onto the buffer; otherwise the full
    /// catalogue scans the line, and a line no rule matches is dropped
    /// with no pending state left behind.
    pub fn parse_line(&mut self, line: &str, assets: &FGExtraDataAssets) -> (r: Result<
        Option<FGGameMessage>,
        ParserError,
    >)
        ensures
            match old(self).pending {
                Option::Some(pb) => pending_step_post(pb, line@, *assets, final(self).pending, r),
                Option::None => fresh_step_post(line@, *assets, final(self).pending, r),
            },
    {
        match self.pending.take() {
            Some(pb) => {
                let mut buf = pb.buffer;
                buf.append("\n");
                buf.append(line);
                let line_count = split_all_lines(buf.as_str()).len();
                if line_count > BUFFER_LINE_CAP {
                    return Err(ParserError::BufferOverflow);
                }
                match apply_rule(pb.rule, buf.as_str(), assets) {
                    ParseResult::Parsed(m) => Ok(Some(m)),
                    ParseResult::NeedMoreLines => {
                        self.pending = Some(PendingBlock { rule: pb.rule, buffer: buf });
                        Ok(None)
                    },
                    ParseResult::Unreachable => Err(ParserError::RuleFailed),
                    ParseResult::NoMatch => Ok(None),
                }
            },
            None => {
                let rule_list = rules();
                let ghost order = rule_order();
                let rn = rule_list.len();
                let mut i: usize = 0;
                proof {
                    assert(order.skip(0) =~= order);
                }
                while i < rn
                    invariant
                        order == rule_order(),
                        rn == order.len(),
                        rule_list@ == order,
                        0 <= i <= rn,
                        old(self).pending is None,
                        self.pending is None,
                        scan_decide(order, line@, *assets) == scan_decide(
                            order.skip(i as int),
                            line@,
                            *assets,
                        ),
                    decreases rn - i,
                {
                    proof {
                        assert(order.skip(i as int)[0] == order[i as int]);
                        assert(order.skip(i as int).skip(1) =~= order.skip(i as int + 1));
                    }
                    let rid = rule_list[i];
                    match apply_rule(rid, line, assets) {
                        ParseResult::Parsed(m) => {
                            proof {
                                assert(rule_eval(order[i as int], line@, *assets)
                                    == ParseResult::Parsed(m@));
                                assert(scan_decide(order.skip(i as int), line@, *assets)
                                    == Option::Some(
                                    (order[i as int], ParseResult::Parsed(m@)),
                                ));
                            }
                            return Ok(Some(m));
                        },
                        ParseResult::NeedMoreLines => {
                            self.pending = Some(
                                PendingBlock { rule: rid, buffer: line.to_owned() },
                            );
                            return Ok(None);
                        },
                        ParseResult::Unreachable => {
                            return Err(ParserError::RuleFailed);
                        },
                        ParseResult::NoMatch => {},
                    }
                    i += 1;
                }
                proof {
                    assert(order.skip(rn as int) =~= Seq::<RuleId>::empty());
                }
                Ok(None)
            },
        }
    }
}

} // verus!
