//! What the inspection interface answers to a manual execution, and the
//! history of the trades that went through.

use crate::event_loop::{views, OpportunityView, TradeOpportunity};
use crate::sniper::{TradeError, TradeResult, TradeResultView};
use vstd::prelude::*;

verus! {

/// Status of the answer to an execution that went through.
pub const STATUS_OK: u16 = 200;

/// Status of the answer to an execution that was turned down or that failed.
pub const STATUS_BAD_REQUEST: u16 = 400;

/// Status of the answer to an execution that ended in an error.
pub const STATUS_INTERNAL_SERVER_ERROR: u16 = 500;

/// The answer to a manual execution.
#[derive(Debug)]
pub struct ExecuteResponse {
    /// The status of the answer.
    pub status: u16,
    /// The result that the answer carries.
    pub body: TradeResult,
}

/// The status that an outcome is answered with: 200 for a trade that went
/// through, 400 for one that was turned down or failed, 500 for an error.
pub open spec fn status_of(outcome: Result<TradeResult, TradeError>) -> u16 {
    match outcome {
        Ok(result) => if result@.success {
            STATUS_OK
        } else {
            STATUS_BAD_REQUEST
        },
        Err(_) => STATUS_INTERNAL_SERVER_ERROR,
    }
}

/// The result that an outcome is answered with: the result itself, or for an
/// error a failure that carries its message.
pub open spec fn body_of(
    opportunity: OpportunityView,
    outcome: Result<TradeResult, TradeError>,
) -> TradeResultView {
    match outcome {
        Ok(result) => result@,
        Err(error) => TradeResultView::failed(opportunity.amount_in, error.text()),
    }
}

/// The answer to a manual execution of `opportunity` that ended in `outcome`.
pub fn respond(
    opportunity: &TradeOpportunity,
    outcome: Result<TradeResult, TradeError>,
) -> (response: ExecuteResponse)
    ensures
        response.status == status_of(outcome),
        response.body@ == body_of(opportunity@, outcome),
        response.status == STATUS_OK <==> response.body@.success,
{
    match outcome {
        Ok(result) => {
            let status: u16 = if result.success() {
                STATUS_OK
            } else {
                STATUS_BAD_REQUEST
            };
            ExecuteResponse { status, body: result }
        },
        Err(error) => ExecuteResponse {
            status: STATUS_INTERNAL_SERVER_ERROR,
            body: TradeResult::failed(opportunity.amount_in, error.message()),
        },
    }
}

/// The trades that went through, oldest first. Results are added at the end
/// and never changed or taken out.
pub struct TradeHistory {
    trades: Vec<TradeResult>,
}

impl View for TradeHistory {
    type V = Seq<TradeResultView>;

    closed spec fn view(&self) -> Seq<TradeResultView> {
        views(self.trades@)
    }
}

impl TradeHistory {
    #[verifier::type_invariant]
    spec fn only_successes(self) -> bool {
        forall|i: int| 0 <= i < self.trades@.len() ==> (#[trigger] self.trades@[i])@.success
    }

    /// What the history holds once `response` was answered: the result is
    /// added when the trade went through, and only then.
    pub open spec fn after(history: Seq<TradeResultView>, response: ExecuteResponse) -> Seq<
        TradeResultView,
    > {
        if response.status == STATUS_OK && response.body@.success {
            history.push(response.body@)
        } else {
            history
        }
    }

    /// An empty history.
    pub fn new() -> (history: Self)
        ensures
            history@ == Seq::<TradeResultView>::empty(),
    {
        let history = TradeHistory { trades: Vec::new() };
        assert(history@ =~= Seq::<TradeResultView>::empty());
        history
    }

    /// Number of trades in the history.
    pub fn len(&self) -> (n: usize)
        ensures
            n == self@.len(),
    {
        self.trades.len()
    }

    /// Takes note of an answer: the result of a trade that went through is
    /// added at the end, any other answer leaves the history as it was.
    pub fn record(&mut self, response: &ExecuteResponse)
        ensures
            final(self)@ == Self::after(old(self)@, *response),
    {
        proof {
            use_type_invariant(&*self);
        }
        if response.status == STATUS_OK && response.body.success() {
            let ghost before = self.trades@;
            let copy = response.body.clone();
            let mut trades: Vec<TradeResult> = Vec::new();
            std::mem::swap(&mut self.trades, &mut trades);
            trades.push(copy);
            std::mem::swap(&mut self.trades, &mut trades);
            assert(views(self.trades@) =~= views(before).push(response.body@));
        }
    }

    /// A copy of the history as it is now. Every trade in it went through.
    pub fn trades(&self) -> (copy: Vec<TradeResult>)
        ensures
            views(copy@) == self@,
            forall|i: int| 0 <= i < self@.len() ==> (#[trigger] self@[i]).success,
    {
        proof {
            use_type_invariant(self);
        }
        let mut copy: Vec<TradeResult> = Vec::new();
        let mut i: usize = 0;
        while i < self.trades.len()
            invariant
                i <= self.trades.len(),
                copy@ == self.trades@.subrange(0, i as int),
            decreases self.trades.len() - i,
        {
            copy.push(self.trades[i].clone());
            assert(copy@ =~= self.trades@.subrange(0, i + 1));
            i = i + 1;
        }
        assert(self.trades@.subrange(0, self.trades.len() as int) =~= self.trades@);
        copy
    }
}

} // verus!
