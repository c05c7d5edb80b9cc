//! The executor: a fresh quote for an opportunity, the check that the trade
//! still pays, and the record of how it ended.

use crate::config::{Config, UNIT};
use crate::retry::{RetryDecision, RetryPolicy};
use crate::decimal::{
    decimal_digits, lemma_parse_of_digits, parse_u64, push_decimal, spec_parse_u64, u64_to_decimal,
};
use crate::event_loop::{OpportunityView, PoolData, PoolView, TradeOpportunity};
use vstd::prelude::*;

verus! {

/// What a `TradeResult` holds, as plain values.
pub struct TradeResultView {
    pub success: bool,
    pub signature: Option<Seq<char>>,
    pub amount_in: int,
    pub amount_out: int,
    pub actual_profit: int,
    pub error: Option<Seq<char>>,
}

impl TradeResultView {
    /// A result reports success exactly when it carries a signature and no
    /// error.
    pub open spec fn is_consistent(self) -> bool {
        self.success <==> (self.error is None && self.signature is Some)
    }

    /// The result of a trade that went through.
    pub open spec fn succeeded(signature: Seq<char>, amount_in: int, amount_out: int) -> Self {
        TradeResultView {
            success: true,
            signature: Some(signature),
            amount_in,
            amount_out,
            actual_profit: amount_out - amount_in,
            error: None,
        }
    }

    /// The result of a trade that was turned down or that failed.
    pub open spec fn failed(amount_in: int, error: Seq<char>) -> Self {
        TradeResultView {
            success: false,
            signature: None,
            amount_in,
            amount_out: 0,
            actual_profit: 0,
            error: Some(error),
        }
    }
}

/// The view of a text that may be absent.
pub open spec fn text_view(text: Option<String>) -> Option<Seq<char>> {
    match text {
        Some(t) => Some(t@),
        None => None,
    }
}

/// How one execution ended. Amounts are in base units. A result is made once
/// and not changed after.
#[derive(Debug, PartialEq, Eq)]
pub struct TradeResult {
    success: bool,
    signature: Option<String>,
    amount_in: i128,
    amount_out: i128,
    actual_profit: i128,
    error: Option<String>,
}

impl View for TradeResult {
    type V = TradeResultView;

    closed spec fn view(&self) -> TradeResultView {
        TradeResultView {
            success: self.success,
            signature: text_view(self.signature),
            amount_in: self.amount_in as int,
            amount_out: self.amount_out as int,
            actual_profit: self.actual_profit as int,
            error: text_view(self.error),
        }
    }
}

/// A copy of a text that may be absent.
pub fn copy_text(text: &Option<String>) -> (copy: Option<String>)
    ensures
        copy == *text,
{
    match text {
        Some(t) => Some(t.clone()),
        None => None,
    }
}

impl TradeResult {
    #[verifier::type_invariant]
    spec fn consistent(self) -> bool {
        self.success <==> (self.error is None && self.signature is Some)
    }

    /// The result of a trade that went through with the given receipt.
    pub fn succeeded(signature: String, amount_in: u64, amount_out: u64) -> (result: Self)
        ensures
            result@ == TradeResultView::succeeded(signature@, amount_in as int, amount_out as int),
    {
        TradeResult {
            success: true,
            signature: Some(signature),
            amount_in: amount_in as i128,
            amount_out: amount_out as i128,
            actual_profit: amount_out as i128 - amount_in as i128,
            error: None,
        }
    }

    /// The result of a trade that was turned down or that failed.
    pub fn failed(amount_in: i64, error: String) -> (result: Self)
        ensures
            result@ == TradeResultView::failed(amount_in as int, error@),
    {
        TradeResult {
            success: false,
            signature: None,
            amount_in: amount_in as i128,
            amount_out: 0,
            actual_profit: 0,
            error: Some(error),
        }
    }

    /// Whether the trade went through. It did exactly when the result carries
    /// a signature and no error.
    pub fn success(&self) -> (success: bool)
        ensures
            success == self@.success,
            self@.is_consistent(),
    {
        proof {
            use_type_invariant(self);
        }
        self.success
    }

    /// The receipt of the execution, present on success only.
    pub fn signature(&self) -> (signature: Option<String>)
        ensures
            text_view(signature) == self@.signature,
            self@.success ==> signature is Some,
    {
        proof {
            use_type_invariant(self);
        }
        copy_text(&self.signature)
    }

    /// What went wrong, present on failure.
    pub fn error(&self) -> (error: Option<String>)
        ensures
            text_view(error) == self@.error,
            self@.success ==> error is None,
    {
        proof {
            use_type_invariant(self);
        }
        copy_text(&self.error)
    }

    /// The amount that went in.
    pub fn amount_in(&self) -> (amount: i128)
        ensures
            amount == self@.amount_in,
    {
        self.amount_in
    }

    /// The amount that came out.
    pub fn amount_out(&self) -> (amount: i128)
        ensures
            amount == self@.amount_out,
    {
        self.amount_out
    }

    /// What the trade brought: the amount out less the amount in.
    pub fn actual_profit(&self) -> (profit: i128)
        ensures
            profit == self@.actual_profit,
    {
        self.actual_profit
    }
}

impl Clone for TradeResult {
    fn clone(&self) -> (copy: Self)
        ensures
            copy == *self,
    {
        proof {
            use_type_invariant(self);
        }
        TradeResult {
            success: self.success,
            signature: copy_text(&self.signature),
            amount_in: self.amount_in,
            amount_out: self.amount_out,
            actual_profit: self.actual_profit,
            error: copy_text(&self.error),
        }
    }
}

/// A quote of the swap aggregator. The amounts are decimal texts in base
/// units.
#[derive(Debug, PartialEq, Eq)]
pub struct JupiterQuote {
    pub input_mint: String,
    pub output_mint: String,
    pub in_amount: String,
    pub out_amount: String,
    pub other_amount_threshold: String,
    pub swap_mode: String,
    pub slippage_bps: u16,
    pub price_impact_pct: String,
}

/// What a `JupiterQuote` holds, as plain values.
pub struct QuoteView {
    pub input_mint: Seq<char>,
    pub output_mint: Seq<char>,
    pub in_amount: Seq<char>,
    pub out_amount: Seq<char>,
    pub other_amount_threshold: Seq<char>,
    pub swap_mode: Seq<char>,
    pub slippage_bps: nat,
    pub price_impact_pct: Seq<char>,
}

impl View for JupiterQuote {
    type V = QuoteView;

    open spec fn view(&self) -> QuoteView {
        QuoteView {
            input_mint: self.input_mint@,
            output_mint: self.output_mint@,
            in_amount: self.in_amount@,
            out_amount: self.out_amount@,
            other_amount_threshold: self.other_amount_threshold@,
            swap_mode: self.swap_mode@,
            slippage_bps: self.slippage_bps as nat,
            price_impact_pct: self.price_impact_pct@,
        }
    }
}

impl Clone for JupiterQuote {
    fn clone(&self) -> (copy: Self)
        ensures
            copy == *self,
    {
        JupiterQuote {
            input_mint: self.input_mint.clone(),
            output_mint: self.output_mint.clone(),
            in_amount: self.in_amount.clone(),
            out_amount: self.out_amount.clone(),
            other_amount_threshold: self.other_amount_threshold.clone(),
            swap_mode: self.swap_mode.clone(),
            slippage_bps: self.slippage_bps,
            price_impact_pct: self.price_impact_pct.clone(),
        }
    }
}

/// What is sent to the swap aggregator to have a quote executed.
#[derive(Debug, PartialEq, Eq)]
pub struct JupiterSwapRequest {
    pub quote_response: JupiterQuote,
    pub user_public_key: String,
    pub wrap_unwrap_sol: bool,
}

/// Where a quote comes from.
#[derive(Debug, Clone, Copy, PartialEq, Eq, Structural)]
pub enum QuoteSource {
    /// The swap aggregator gave it.
    Aggregator,
    /// It was made up from the expected values of the opportunity, because
    /// the aggregator could not be had.
    Placeholder,
}

/// How a request for a quote ended.
#[derive(Debug)]
pub enum QuoteReply {
    /// The aggregator answered with a quote.
    Quote(JupiterQuote),
    /// The aggregator answered with an error status.
    Rejected { status: u16 },
    /// The aggregator could not be reached; the text says why.
    Unreachable(String),
    /// The call ran out of time.
    TimedOut,
    /// The aggregator answered, but not with a quote that can be read; the
    /// text says why.
    Malformed(String),
}

/// How the execution of a quote ended.
#[derive(Debug)]
pub enum SwapReply {
    /// The swap went through; this is its receipt.
    Executed { signature: String },
    /// The swap failed; the text says why.
    Failed(String),
    /// The call ran out of time.
    TimedOut,
}

/// Why a trade was not attempted at all.
#[derive(Debug, Clone, Copy, PartialEq, Eq, Structural)]
pub enum TradeError {
    /// The amount to trade is zero or negative.
    NonPositiveAmount,
    /// The token to sell is the token to buy.
    IdenticalTokens,
    /// A side of the pool holds less than the floor.
    InsufficientLiquidity,
}

impl TradeError {
    /// The message for the caller.
    pub open spec fn text(self) -> Seq<char> {
        match self {
            TradeError::NonPositiveAmount => "amount_in must be positive"@,
            TradeError::IdenticalTokens => "token_in and token_out must differ"@,
            TradeError::InsufficientLiquidity => "pool liquidity is below the floor"@,
        }
    }

    /// The message for the caller.
    pub fn message(&self) -> (text: String)
        ensures
            text@ == self.text(),
    {
        match self {
            TradeError::NonPositiveAmount => String::from_str("amount_in must be positive"),
            TradeError::IdenticalTokens => String::from_str("token_in and token_out must differ"),
            TradeError::InsufficientLiquidity => String::from_str(
                "pool liquidity is below the floor",
            ),
        }
    }
}

/// An amount as it is sent to the aggregator: a negative one counts as zero.
pub open spec fn sendable(amount: int) -> nat {
    if amount < 0 {
        0
    } else {
        amount as nat
    }
}

/// An amount as it is sent to the aggregator: a negative one counts as zero.
pub fn sendable_amount(amount: i64) -> (sent: u64)
    ensures
        sent == sendable(amount as int),
{
    if amount < 0 {
        0
    } else {
        amount as u64
    }
}

/// The number that an amount text of a quote spells, or `fallback` where it
/// spells none.
pub open spec fn amount_or(text: Seq<char>, fallback: nat) -> nat {
    match spec_parse_u64(text) {
        Some(amount) => amount as nat,
        None => fallback,
    }
}

/// Reads an amount text of a quote.
pub fn read_amount(text: &str, fallback: u64) -> (amount: u64)
    ensures
        amount == amount_or(text@, fallback as nat),
{
    match parse_u64(text) {
        Some(amount) => amount,
        None => fallback,
    }
}

/// The profit that a quote promises: what comes out less what goes in. An
/// amount out that cannot be read counts as nothing, an amount in that cannot
/// be read as one base unit.
pub open spec fn quoted_profit(quote: QuoteView) -> int {
    amount_or(quote.out_amount, 0) - amount_or(quote.in_amount, 1)
}

/// A quoted profit passes when it reaches the threshold and four fifths of
/// the profit that was expected.
pub open spec fn still_pays(profit: int, threshold: int, expected_profit: int) -> bool {
    profit >= threshold && 5 * profit >= 4 * expected_profit
}

/// The first reason not to attempt an opportunity, if there is one.
pub open spec fn opportunity_fault(opportunity: OpportunityView) -> Option<TradeError> {
    if opportunity.amount_in <= 0 {
        Some(TradeError::NonPositiveAmount)
    } else if opportunity.token_in == opportunity.token_out {
        Some(TradeError::IdenticalTokens)
    } else {
        None
    }
}

/// The address at which a quote for an opportunity is asked.
pub open spec fn quote_url_text(
    base: Seq<char>,
    opportunity: OpportunityView,
    slippage_bps: nat,
) -> Seq<char> {
    base + "/quote?inputMint="@ + opportunity.token_in + "&outputMint="@ + opportunity.token_out
        + "&amount="@ + decimal_digits(sendable(opportunity.amount_in)) + "&slippageBps="@
        + decimal_digits(slippage_bps)
}

/// The quote that stands in for the aggregator's: the expected values of the
/// opportunity itself.
pub open spec fn placeholder_quote(opportunity: OpportunityView, slippage_bps: nat) -> QuoteView {
    QuoteView {
        input_mint: opportunity.token_in,
        output_mint: opportunity.token_out,
        in_amount: decimal_digits(sendable(opportunity.amount_in)),
        out_amount: decimal_digits(opportunity.expected_amount_out),
        other_amount_threshold: "0"@,
        swap_mode: "ExactIn"@,
        slippage_bps,
        price_impact_pct: "0.1"@,
    }
}

/// The placeholder promises what the opportunity expected: its profit is the
/// expected amount out less the amount in as it is sent.
pub proof fn lemma_placeholder_profit(opportunity: OpportunityView, slippage_bps: nat)
    requires
        opportunity.amount_in <= i64::MAX,
        opportunity.expected_amount_out <= u64::MAX,
    ensures
        quoted_profit(placeholder_quote(opportunity, slippage_bps))
            == opportunity.expected_amount_out - sendable(opportunity.amount_in),
{
    lemma_parse_of_digits(sendable(opportunity.amount_in) as u64);
    lemma_parse_of_digits(opportunity.expected_amount_out as u64);
}

/// The executor. Of the settings it keeps the address of the aggregator, the
/// slippage and the profit threshold, and nothing else: no key of a wallet is
/// held here.
#[derive(Debug)]
pub struct Sniper {
    jupiter_api_url: String,
    slippage_bps: u16,
    min_profit_threshold: i64,
}

impl Sniper {
    /// The address of the swap aggregator.
    pub closed spec fn api_url(&self) -> Seq<char> {
        self.jupiter_api_url@
    }

    /// The slippage allowed, in basis points.
    pub closed spec fn slippage(&self) -> nat {
        self.slippage_bps as nat
    }

    /// The least profit that a trade must bring.
    pub closed spec fn threshold(&self) -> int {
        self.min_profit_threshold as int
    }

    /// An executor with the address of the aggregator, the slippage and the
    /// profit threshold of the given settings.
    pub fn new(config: &Config) -> (sniper: Self)
        ensures
            sniper.api_url() == config.jupiter_api_url@,
            sniper.slippage() == config.slippage_bps,
            sniper.threshold() == config.min_profit_threshold,
    {
        Sniper {
            jupiter_api_url: config.jupiter_api_url.clone(),
            slippage_bps: config.slippage_bps,
            min_profit_threshold: config.min_profit_threshold,
        }
    }

    /// The least profit that a trade must bring.
    pub fn min_profit_threshold(&self) -> (threshold: i64)
        ensures
            threshold == self.threshold(),
    {
        self.min_profit_threshold
    }

    /// The slippage allowed, in basis points.
    pub fn slippage_bps(&self) -> (slippage: u16)
        ensures
            slippage == self.slippage(),
    {
        self.slippage_bps
    }

    /// Checks that an opportunity can be attempted at all: its amount is
    /// positive and it trades one token for another.
    pub fn check_opportunity(&self, opportunity: &TradeOpportunity) -> (r: Result<(), TradeError>)
        ensures
            r is Ok <==> opportunity_fault(opportunity@) is None,
            r is Err ==> opportunity_fault(opportunity@) == Some(r->Err_0),
    {
        if opportunity.amount_in <= 0 {
            return Err(TradeError::NonPositiveAmount);
        }
        if opportunity.token_in == opportunity.token_out {
            return Err(TradeError::IdenticalTokens);
        }
        Ok(())
    }

    /// The address at which a fresh quote for the opportunity is asked.
    pub fn quote_url(&self, opportunity: &TradeOpportunity) -> (url: String)
        ensures
            url@ == quote_url_text(
                self.api_url(),
                opportunity@,
                self.slippage(),
            ),
    {
        let mut url = self.jupiter_api_url.clone();
        url.append("/quote?inputMint=");
        url.append(opportunity.token_in.as_str());
        url.append("&outputMint=");
        url.append(opportunity.token_out.as_str());
        url.append("&amount=");
        push_decimal(&mut url, sendable_amount(opportunity.amount_in));
        url.append("&slippageBps=");
        push_decimal(&mut url, self.slippage_bps as u64);
        url
    }

    /// The quote that stands in for the aggregator's when it cannot be had.
    pub fn create_placeholder_quote(&self, opportunity: &TradeOpportunity) -> (quote: JupiterQuote)
        ensures
            quote@ == placeholder_quote(opportunity@, self.slippage()),
    {
        JupiterQuote {
            input_mint: opportunity.token_in.clone(),
            output_mint: opportunity.token_out.clone(),
            in_amount: u64_to_decimal(sendable_amount(opportunity.amount_in)),
            out_amount: u64_to_decimal(opportunity.expected_amount_out),
            other_amount_threshold: String::from_str("0"),
            swap_mode: String::from_str("ExactIn"),
            slippage_bps: self.slippage_bps,
            price_impact_pct: String::from_str("0.1"),
        }
    }

    /// Tells whether a quote still pays: its profit reaches the threshold of
    /// the settings and four fifths of the profit that the opportunity
    /// expected.
    pub fn verify_profitability(
        &self,
        quote: &JupiterQuote,
        opportunity: &TradeOpportunity,
    ) -> (pays: bool)
        ensures
            pays == still_pays(
                quoted_profit(quote@),
                self.threshold(),
                opportunity@.expected_profit,
            ),
    {
        let out_amount: u64 = read_amount(quote.out_amount.as_str(), 0);
        let in_amount: u64 = read_amount(quote.in_amount.as_str(), 1);
        let profit: i128 = out_amount as i128 - in_amount as i128;
        profit >= self.min_profit_threshold as i128 && 5 * profit >= 4
            * opportunity.expected_profit as i128
    }
}

/// A quote that passed the profit check, with what it was held
/// against. Only the check of a fresh quote makes one, so whatever is
/// executed has passed the profit check.
#[derive(Debug)]
pub struct VerifiedOrder {
    quote: JupiterQuote,
    source: QuoteSource,
    amount_in: i64,
    expected_profit: i64,
    threshold: i64,
}

impl VerifiedOrder {
    #[verifier::type_invariant]
    spec fn quote_still_pays(self) -> bool {
        still_pays(quoted_profit(self.quote@), self.threshold as int, self.expected_profit as int)
    }

    /// The quote to execute.
    pub closed spec fn quote_view(&self) -> QuoteView {
        self.quote@
    }

    /// Where the quote comes from.
    pub closed spec fn quote_source(&self) -> QuoteSource {
        self.source
    }

    /// The amount in of the opportunity that the quote was asked for.
    pub closed spec fn opportunity_amount(&self) -> int {
        self.amount_in as int
    }

    /// The profit that the opportunity expected.
    pub closed spec fn expected_profit(&self) -> int {
        self.expected_profit as int
    }

    /// The threshold that the quoted profit was held against.
    pub closed spec fn threshold(&self) -> int {
        self.threshold as int
    }

    /// The quote to execute. Its profit reaches the threshold and four fifths
    /// of the expected profit.
    pub fn quote(&self) -> (quote: &JupiterQuote)
        ensures
            quote@ == self.quote_view(),
            still_pays(quoted_profit(quote@), self.threshold(), self.expected_profit()),
    {
        proof {
            use_type_invariant(self);
        }
        &self.quote
    }

    /// Where the quote comes from: the aggregator, or the expected values of
    /// the opportunity.
    pub fn source(&self) -> (source: QuoteSource)
        ensures
            source == self.quote_source(),
    {
        self.source
    }

    /// What to send to the aggregator to have the quote executed for the
    /// holder of `user_public_key`.
    pub fn swap_request(&self, user_public_key: &str) -> (request: JupiterSwapRequest)
        ensures
            request.quote_response@ == self.quote_view(),
            request.user_public_key@ == user_public_key@,
            request.wrap_unwrap_sol,
    {
        JupiterSwapRequest {
            quote_response: self.quote.clone(),
            user_public_key: String::from_str(user_public_key),
            wrap_unwrap_sol: true,
        }
    }
}

/// What follows the answer to a request for a quote.
#[derive(Debug)]
pub enum TradeStep {
    /// The trade is over, with this result.
    Finished(TradeResult),
    /// The quote passed the profit check and is to be executed.
    Submit(VerifiedOrder),
}

/// What a `TradeStep` holds, as plain values.
pub enum StepView {
    Finished(TradeResultView),
    Submit { quote: QuoteView, source: QuoteSource },
}

impl View for TradeStep {
    type V = StepView;

    open spec fn view(&self) -> StepView {
        match *self {
            TradeStep::Finished(result) => StepView::Finished(result@),
            TradeStep::Submit(order) => StepView::Submit {
                quote: order.quote_view(),
                source: order.quote_source(),
            },
        }
    }
}

/// The quote that a reply leaves the executor with, and where it comes from:
/// the aggregator's where it gave one, the placeholder where the aggregator
/// refused, could not be reached or took too long, and none where its answer
/// cannot be read.
pub open spec fn resolved_quote(
    opportunity: OpportunityView,
    slippage_bps: nat,
    reply: QuoteReply,
) -> Option<(QuoteView, QuoteSource)> {
    match reply {
        QuoteReply::Quote(quote) => Some((quote@, QuoteSource::Aggregator)),
        QuoteReply::Rejected { .. } | QuoteReply::Unreachable(_) | QuoteReply::TimedOut => Some(
            (placeholder_quote(opportunity, slippage_bps), QuoteSource::Placeholder),
        ),
        QuoteReply::Malformed(_) => None,
    }
}

/// What follows a reply: the trade ends in failure where no quote can be
/// read or the quote does not pass the profit check; else the quote is submitted.
pub open spec fn quote_step(
    threshold: int,
    slippage_bps: nat,
    opportunity: OpportunityView,
    reply: QuoteReply,
) -> StepView {
    match resolved_quote(opportunity, slippage_bps, reply) {
        None => StepView::Finished(
            TradeResultView::failed(
                opportunity.amount_in,
                "Quote failed: "@ + reply->Malformed_0@,
            ),
        ),
        Some((quote, source)) => if still_pays(
            quoted_profit(quote),
            threshold,
            opportunity.expected_profit,
        ) {
            StepView::Submit { quote, source }
        } else {
            StepView::Finished(
                TradeResultView::failed(opportunity.amount_in, "Insufficient profit after quote"@),
            )
        },
    }
}

/// How the execution of a quote is recorded: as a success with the receipt
/// and the amounts of the quote, an amount that cannot be read counting as
/// nothing; or as a failure with the reason.
pub open spec fn swap_result(
    quote: QuoteView,
    amount_in: int,
    reply: SwapReply,
) -> TradeResultView {
    match reply {
        SwapReply::Executed { signature } => TradeResultView::succeeded(
            signature@,
            amount_or(quote.in_amount, 0) as int,
            amount_or(quote.out_amount, 0) as int,
        ),
        SwapReply::Failed(reason) => TradeResultView::failed(amount_in, "Swap failed: "@ + reason@),
        SwapReply::TimedOut => TradeResultView::failed(amount_in, "Swap timed out"@),
    }
}

/// The text `prefix` followed by `detail`.
pub fn prefixed(prefix: &str, detail: &str) -> (text: String)
    ensures
        text@ == prefix@ + detail@,
{
    let mut text = String::from_str(prefix);
    text.append(detail);
    text
}

impl Sniper {
    /// The first step of an execution: the opportunity is checked, and the
    /// address for its fresh quote is returned. An opportunity with an amount
    /// of zero or less, or with one token on both sides, is an error.
    pub fn begin_trade(&self, opportunity: &TradeOpportunity) -> (r: Result<String, TradeError>)
        ensures
            match r {
                Ok(url) => opportunity_fault(opportunity@) is None && url@ == quote_url_text(
                    self.api_url(),
                    opportunity@,
                    self.slippage(),
                ),
                Err(error) => opportunity_fault(opportunity@) == Some(error),
            },
            opportunity@.amount_in <= 0 ==> r == Err::<String, TradeError>(
                TradeError::NonPositiveAmount,
            ),
    {
        match self.check_opportunity(opportunity) {
            Ok(()) => Ok(self.quote_url(opportunity)),
            Err(error) => Err(error),
        }
    }

    /// The second step: the answer to the request for a quote has come. The
    /// quote, or the placeholder where the aggregator gave none, is held
    /// against the profit check. What does not pass ends the trade as a failure; what
    /// passes is to be submitted.
    pub fn on_quote(&self, opportunity: &TradeOpportunity, reply: QuoteReply) -> (step: TradeStep)
        ensures
            step@ == quote_step(
                self.threshold(),
                self.slippage(),
                opportunity@,
                reply,
            ),
            step matches TradeStep::Submit(order) ==> {
                &&& order.opportunity_amount() == opportunity@.amount_in
                &&& order.expected_profit() == opportunity@.expected_profit
                &&& order.threshold() == self.threshold()
            },
    {
        let (quote, source) = match reply {
            QuoteReply::Quote(quote) => (quote, QuoteSource::Aggregator),
            QuoteReply::Rejected { .. } => (
                self.create_placeholder_quote(opportunity),
                QuoteSource::Placeholder,
            ),
            QuoteReply::Unreachable(_) => (
                self.create_placeholder_quote(opportunity),
                QuoteSource::Placeholder,
            ),
            QuoteReply::TimedOut => (
                self.create_placeholder_quote(opportunity),
                QuoteSource::Placeholder,
            ),
            QuoteReply::Malformed(reason) => {
                return TradeStep::Finished(
                    TradeResult::failed(
                        opportunity.amount_in,
                        prefixed("Quote failed: ", reason.as_str()),
                    ),
                );
            },
        };
        if !self.verify_profitability(&quote, opportunity) {
            return TradeStep::Finished(
                TradeResult::failed(
                    opportunity.amount_in,
                    String::from_str("Insufficient profit after quote"),
                ),
            );
        }
        TradeStep::Submit(
            VerifiedOrder {
                quote,
                source,
                amount_in: opportunity.amount_in,
                expected_profit: opportunity.expected_profit,
                threshold: self.min_profit_threshold,
            },
        )
    }

    /// The last step: the answer to the submission has come. No trade is
    /// recorded as a success unless its quote passed the profit check.
    pub fn on_swap(&self, order: VerifiedOrder, reply: SwapReply) -> (result: TradeResult)
        ensures
            result@ == swap_result(order.quote_view(), order.opportunity_amount(), reply),
            result@.success ==> still_pays(
                quoted_profit(order.quote_view()),
                order.threshold(),
                order.expected_profit(),
            ),
            result@.is_consistent(),
    {
        proof {
            use_type_invariant(&order);
        }
        match reply {
            SwapReply::Executed { signature } => {
                let in_amount: u64 = read_amount(order.quote.in_amount.as_str(), 0);
                let out_amount: u64 = read_amount(order.quote.out_amount.as_str(), 0);
                TradeResult::succeeded(signature, in_amount, out_amount)
            },
            SwapReply::Failed(reason) => TradeResult::failed(
                order.amount_in,
                prefixed("Swap failed: ", reason.as_str()),
            ),
            SwapReply::TimedOut => TradeResult::failed(
                order.amount_in,
                String::from_str("Swap timed out"),
            ),
        }
    }

    /// Tells whether an opportunity from the stream is worth an execution:
    /// its expected profit reaches the threshold of the settings.
    pub fn should_snipe(&self, opportunity: &TradeOpportunity) -> (worth: bool)
        ensures
            worth == (opportunity@.expected_profit >= self.threshold()),
    {
        opportunity.expected_profit >= self.min_profit_threshold
    }

    /// Asks the model whether an opportunity should be executed. Until a
    /// model is wired in, the answer is whether the expected profit is above
    /// the threshold of the settings; the call never fails.
    pub fn analyze_with_ai(&self, opportunity: &TradeOpportunity) -> (r: Result<bool, TradeError>)
        ensures
            r == Ok::<bool, TradeError>(
                opportunity@.expected_profit > self.threshold(),
            ),
    {
        Ok(opportunity.expected_profit > self.min_profit_threshold)
    }
}

/// The least that each side of a pool must hold for a manual trade through
/// it: one unit.
pub const LIQUIDITY_FLOOR: u64 = UNIT;

/// The first reason not to attempt a manual trade through a pool, if there
/// is one.
pub open spec fn attempt_fault(pool: PoolView, opportunity: OpportunityView) -> Option<TradeError> {
    if opportunity.amount_in <= 0 {
        Some(TradeError::NonPositiveAmount)
    } else if pool.liquidity_a < LIQUIDITY_FLOOR || pool.liquidity_b < LIQUIDITY_FLOOR {
        Some(TradeError::InsufficientLiquidity)
    } else if opportunity.token_in == opportunity.token_out {
        Some(TradeError::IdenticalTokens)
    } else {
        None
    }
}

/// Why a request for a quote counts as failed, where it does: any reply but
/// a quote.
pub open spec fn quote_failure(reply: QuoteReply) -> Option<Seq<char>> {
    match reply {
        QuoteReply::Quote(_) => None,
        QuoteReply::Rejected { status } => Some(
            "Quote rejected with status "@ + decimal_digits(status as nat),
        ),
        QuoteReply::Unreachable(reason) => Some("Quote failed: "@ + reason@),
        QuoteReply::TimedOut => Some("Quote timed out"@),
        QuoteReply::Malformed(reason) => Some("Quote failed: "@ + reason@),
    }
}

/// Why a submission counts as failed, where it does.
pub open spec fn swap_failure(reply: SwapReply) -> Option<Seq<char>> {
    match reply {
        SwapReply::Executed { .. } => None,
        SwapReply::Failed(reason) => Some("Swap failed: "@ + reason@),
        SwapReply::TimedOut => Some("Swap timed out"@),
    }
}

/// What follows a step of a manual trade, which is tried again when a call
/// fails.
#[derive(Debug)]
pub enum AttemptStep {
    /// Ask for a quote at `url`; this is attempt number `attempt`.
    RequestQuote { url: String, attempt: u32 },
    /// The quote passed the profit check and is to be executed, still as attempt
    /// number `attempt`.
    Submit { order: VerifiedOrder, attempt: u32 },
    /// The attempt failed. Wait `delay_ms`, then ask for a quote at `url` as
    /// attempt number `attempt`.
    RetryAfter { delay_ms: u64, url: String, attempt: u32 },
    /// The trade is over, with this result.
    Finished(TradeResult),
}

/// What an `AttemptStep` holds, as plain values.
pub enum AttemptView {
    RequestQuote { url: Seq<char>, attempt: nat },
    Submit { quote: QuoteView, source: QuoteSource, attempt: nat },
    RetryAfter { delay_ms: nat, url: Seq<char>, attempt: nat },
    Finished(TradeResultView),
}

impl View for AttemptStep {
    type V = AttemptView;

    open spec fn view(&self) -> AttemptView {
        match *self {
            AttemptStep::RequestQuote { url, attempt } => AttemptView::RequestQuote {
                url: url@,
                attempt: attempt as nat,
            },
            AttemptStep::Submit { order, attempt } => AttemptView::Submit {
                quote: order.quote_view(),
                source: order.quote_source(),
                attempt: attempt as nat,
            },
            AttemptStep::RetryAfter { delay_ms, url, attempt } => AttemptView::RetryAfter {
                delay_ms: delay_ms as nat,
                url: url@,
                attempt: attempt as nat,
            },
            AttemptStep::Finished(result) => AttemptView::Finished(result@),
        }
    }
}

/// What follows the failure of attempt number `attempt` for the given
/// reason: another attempt after the wait of the policy while it allows one,
/// else the end of the trade as a failure.
pub open spec fn failure_step(
    policy: RetryPolicy,
    url: Seq<char>,
    amount_in: int,
    attempt: nat,
    reason: Seq<char>,
) -> AttemptView {
    match policy.decision(attempt) {
        RetryDecision::RetryAfter { delay_ms, next_attempt } => AttemptView::RetryAfter {
            delay_ms: delay_ms as nat,
            url,
            attempt: next_attempt as nat,
        },
        RetryDecision::GiveUp => AttemptView::Finished(
            TradeResultView::failed(amount_in, "Retries exhausted: "@ + reason),
        ),
    }
}

/// What follows the answer to the request for a quote of attempt number
/// `attempt` of a manual trade. Here nothing stands in for a quote that
/// could not be had: the attempt has failed.
pub open spec fn attempt_quote_step(
    policy: RetryPolicy,
    threshold: int,
    url: Seq<char>,
    opportunity: OpportunityView,
    attempt: nat,
    reply: QuoteReply,
) -> AttemptView {
    match reply {
        QuoteReply::Quote(quote) => if still_pays(
            quoted_profit(quote@),
            threshold,
            opportunity.expected_profit,
        ) {
            AttemptView::Submit { quote: quote@, source: QuoteSource::Aggregator, attempt }
        } else {
            AttemptView::Finished(
                TradeResultView::failed(opportunity.amount_in, "Insufficient profit after quote"@),
            )
        },
        _ => failure_step(
            policy,
            url,
            opportunity.amount_in,
            attempt,
            quote_failure(reply)->Some_0,
        ),
    }
}

/// What follows the answer to the submission of attempt number `attempt` of
/// a manual trade.
pub open spec fn attempt_swap_step(
    policy: RetryPolicy,
    url: Seq<char>,
    quote: QuoteView,
    amount_in: int,
    attempt: nat,
    reply: SwapReply,
) -> AttemptView {
    match reply {
        SwapReply::Executed { .. } => AttemptView::Finished(swap_result(quote, amount_in, reply)),
        _ => failure_step(policy, url, amount_in, attempt, swap_failure(reply)->Some_0),
    }
}

impl Sniper {
    /// Checks that a manual trade through `pool` can be attempted at all: the
    /// amount is positive, each side of the pool holds the floor at least,
    /// and one token is traded for another.
    pub fn check_attempt(&self, pool: &PoolData, opportunity: &TradeOpportunity) -> (r: Result<
        (),
        TradeError,
    >)
        ensures
            r is Ok <==> attempt_fault(pool@, opportunity@) is None,
            r is Err ==> attempt_fault(pool@, opportunity@) == Some(r->Err_0),
    {
        if opportunity.amount_in <= 0 {
            return Err(TradeError::NonPositiveAmount);
        }
        if pool.liquidity_a < LIQUIDITY_FLOOR || pool.liquidity_b < LIQUIDITY_FLOOR {
            return Err(TradeError::InsufficientLiquidity);
        }
        if opportunity.token_in == opportunity.token_out {
            return Err(TradeError::IdenticalTokens);
        }
        Ok(())
    }

    /// The first step of a manual trade through `pool`. A trade that cannot
    /// be attempted is an error. A policy that allows no attempt ends the
    /// trade at once; else the first request for a quote is due.
    pub fn attempt_trade(
        &self,
        policy: &RetryPolicy,
        pool: &PoolData,
        opportunity: &TradeOpportunity,
    ) -> (r: Result<AttemptStep, TradeError>)
        ensures
            match r {
                Ok(step) => attempt_fault(pool@, opportunity@) is None && step@ == (
                if policy.max_attempts == 0 {
                    AttemptView::Finished(
                        TradeResultView::failed(
                            opportunity@.amount_in,
                            "Retries exhausted: no attempt allowed"@,
                        ),
                    )
                } else {
                    AttemptView::RequestQuote {
                        url: quote_url_text(
                            self.api_url(),
                            opportunity@,
                            self.slippage(),
                        ),
                        attempt: 1,
                    }
                }),
                Err(error) => attempt_fault(pool@, opportunity@) == Some(error),
            },
            opportunity@.amount_in <= 0 ==> r == Err::<AttemptStep, TradeError>(
                TradeError::NonPositiveAmount,
            ),
    {
        match self.check_attempt(pool, opportunity) {
            Ok(()) => {},
            Err(error) => {
                return Err(error);
            },
        }
        if !policy.allows_attempt() {
            return Ok(
                AttemptStep::Finished(
                    TradeResult::failed(
                        opportunity.amount_in,
                        String::from_str("Retries exhausted: no attempt allowed"),
                    ),
                ),
            );
        }
        Ok(AttemptStep::RequestQuote { url: self.quote_url(opportunity), attempt: 1 })
    }

    /// What follows the failure of attempt number `attempt`.
    fn after_failed_attempt(
        &self,
        policy: &RetryPolicy,
        opportunity: &TradeOpportunity,
        attempt: u32,
        reason: String,
    ) -> (step: AttemptStep)
        ensures
            step@ == failure_step(
                *policy,
                quote_url_text(
                    self.api_url(),
                    opportunity@,
                    self.slippage(),
                ),
                opportunity@.amount_in,
                attempt as nat,
                reason@,
            ),
    {
        match policy.after_failure(attempt) {
            RetryDecision::RetryAfter { delay_ms, next_attempt } => AttemptStep::RetryAfter {
                delay_ms,
                url: self.quote_url(opportunity),
                attempt: next_attempt,
            },
            RetryDecision::GiveUp => AttemptStep::Finished(
                TradeResult::failed(
                    opportunity.amount_in,
                    prefixed("Retries exhausted: ", reason.as_str()),
                ),
            ),
        }
    }

    /// The answer to the request for a quote of attempt number `attempt` has
    /// come. A quote is held against the profit check: it is submitted, or the trade
    /// ends as turned down. Any other reply is a failed attempt, which the
    /// policy has tried again or given up.
    pub fn on_attempt_quote(
        &self,
        policy: &RetryPolicy,
        opportunity: &TradeOpportunity,
        attempt: u32,
        reply: QuoteReply,
    ) -> (step: AttemptStep)
        ensures
            step@ == attempt_quote_step(
                *policy,
                self.threshold(),
                quote_url_text(
                    self.api_url(),
                    opportunity@,
                    self.slippage(),
                ),
                opportunity@,
                attempt as nat,
                reply,
            ),
            step matches AttemptStep::Submit { order, .. } ==> {
                &&& order.opportunity_amount() == opportunity@.amount_in
                &&& order.expected_profit() == opportunity@.expected_profit
                &&& order.threshold() == self.threshold()
            },
    {
        let reason = match reply {
            QuoteReply::Quote(quote) => {
                if !self.verify_profitability(&quote, opportunity) {
                    return AttemptStep::Finished(
                        TradeResult::failed(
                            opportunity.amount_in,
                            String::from_str("Insufficient profit after quote"),
                        ),
                    );
                }
                return AttemptStep::Submit {
                    order: VerifiedOrder {
                        quote,
                        source: QuoteSource::Aggregator,
                        amount_in: opportunity.amount_in,
                        expected_profit: opportunity.expected_profit,
                        threshold: self.min_profit_threshold,
                    },
                    attempt,
                };
            },
            QuoteReply::Rejected { status } => {
                let mut text = String::from_str("Quote rejected with status ");
                push_decimal(&mut text, status as u64);
                text
            },
            QuoteReply::Unreachable(reason) => prefixed("Quote failed: ", reason.as_str()),
            QuoteReply::TimedOut => String::from_str("Quote timed out"),
            QuoteReply::Malformed(reason) => prefixed("Quote failed: ", reason.as_str()),
        };
        self.after_failed_attempt(policy, opportunity, attempt, reason)
    }

    /// The answer to the submission of attempt number `attempt` has come. A
    /// swap that went through ends the trade as a success; a failed one is a
    /// failed attempt, which the policy has tried again or given up.
    pub fn on_attempt_swap(
        &self,
        policy: &RetryPolicy,
        opportunity: &TradeOpportunity,
        attempt: u32,
        order: VerifiedOrder,
        reply: SwapReply,
    ) -> (step: AttemptStep)
        ensures
            step@ == attempt_swap_step(
                *policy,
                quote_url_text(
                    self.api_url(),
                    opportunity@,
                    self.slippage(),
                ),
                order.quote_view(),
                opportunity@.amount_in,
                attempt as nat,
                reply,
            ),
            step matches AttemptStep::Finished(result) && result@.success ==> still_pays(
                quoted_profit(order.quote_view()),
                order.threshold(),
                order.expected_profit(),
            ),
    {
        proof {
            use_type_invariant(&order);
        }
        let reason = match reply {
            SwapReply::Executed { signature } => {
                let in_amount: u64 = read_amount(order.quote.in_amount.as_str(), 0);
                let out_amount: u64 = read_amount(order.quote.out_amount.as_str(), 0);
                return AttemptStep::Finished(
                    TradeResult::succeeded(signature, in_amount, out_amount),
                );
            },
            SwapReply::Failed(reason) => prefixed("Swap failed: ", reason.as_str()),
            SwapReply::TimedOut => String::from_str("Swap timed out"),
        };
        self.after_failed_attempt(policy, opportunity, attempt, reason)
    }
}

/// How an execution ends, from the opportunity and the two replies: in an
/// error where the opportunity cannot be attempted; else in the failure that
/// the answer to the quote brings, or in what the submission brings. The
/// reply to the submission counts only where the quote is submitted.
pub open spec fn execution_outcome(
    threshold: int,
    slippage_bps: nat,
    opportunity: OpportunityView,
    quote_reply: QuoteReply,
    swap_reply: SwapReply,
) -> Result<TradeResultView, TradeError> {
    match opportunity_fault(opportunity) {
        Some(error) => Err(error),
        None => Ok(
            match quote_step(threshold, slippage_bps, opportunity, quote_reply) {
                StepView::Finished(result) => result,
                StepView::Submit { quote, .. } => swap_result(
                    quote,
                    opportunity.amount_in,
                    swap_reply,
                ),
            },
        ),
    }
}

/// No execution ends in success unless the profit of its quote reaches both
/// the threshold and four fifths of the expected profit, and the submission
/// went through. Every result reports success exactly when it carries a
/// signature and no error.
pub proof fn lemma_no_success_without_profit(
    threshold: int,
    slippage_bps: nat,
    opportunity: OpportunityView,
    quote_reply: QuoteReply,
    swap_reply: SwapReply,
)
    ensures
        execution_outcome(threshold, slippage_bps, opportunity, quote_reply, swap_reply) matches Ok(
            result,
        ) ==> {
            &&& result.is_consistent()
            &&& result.success ==> {
                &&& resolved_quote(opportunity, slippage_bps, quote_reply) matches Some(resolved)
                &&& quoted_profit(resolved.0) >= threshold
                &&& 5 * quoted_profit(resolved.0) >= 4 * opportunity.expected_profit
                &&& swap_reply is Executed
            }
        },
{
}

/// An opportunity with an amount of zero or less never reaches a quote: its
/// execution ends in an error, whatever the collaborators would answer.
pub proof fn lemma_nonpositive_amount_is_an_error(
    threshold: int,
    slippage_bps: nat,
    opportunity: OpportunityView,
    quote_reply: QuoteReply,
    swap_reply: SwapReply,
)
    requires
        opportunity.amount_in <= 0,
    ensures
        execution_outcome(threshold, slippage_bps, opportunity, quote_reply, swap_reply) == Err::<
            TradeResultView,
            TradeError,
        >(TradeError::NonPositiveAmount),
{
}

/// A manual trade whose every call fails is tried exactly as often as the
/// policy allows: the failure of any attempt before the last is followed,
/// after the wait of the policy, by the attempt with the next number, and the
/// failure of the last by the end of the trade in failure. This holds for a
/// failed request for a quote and for a failed submission alike.
pub proof fn lemma_failing_manual_trade(
    policy: RetryPolicy,
    threshold: int,
    url: Seq<char>,
    opportunity: OpportunityView,
    quote: QuoteView,
    attempt: nat,
    quote_reply: QuoteReply,
    swap_reply: SwapReply,
)
    requires
        1 <= attempt,
        quote_reply !is Quote,
        swap_reply !is Executed,
    ensures
        attempt < policy.max_attempts ==> {
            let next = AttemptView::RetryAfter {
                delay_ms: policy.delay_ms(attempt),
                url,
                attempt: attempt + 1,
            };
            &&& attempt_quote_step(policy, threshold, url, opportunity, attempt, quote_reply)
                == next
            &&& attempt_swap_step(
                policy,
                url,
                quote,
                opportunity.amount_in,
                attempt,
                swap_reply,
            ) == next
        },
        attempt >= policy.max_attempts ==> {
            &&& attempt_quote_step(
                policy,
                threshold,
                url,
                opportunity,
                attempt,
                quote_reply,
            ) matches AttemptView::Finished(result) && !result.success
            &&& attempt_swap_step(
                policy,
                url,
                quote,
                opportunity.amount_in,
                attempt,
                swap_reply,
            ) matches AttemptView::Finished(result) && !result.success
        },
{
}

impl Sniper {
    /// Executes an opportunity from end to end with the two collaborators at
    /// hand: `quote` is asked once for a fresh quote at the address it is
    /// given, and `swap` is asked to execute a quote only if that quote has
    /// passed the profit check. An opportunity that cannot be attempted is an error;
    /// every other end, a trade turned down or failed included, is a result.
    pub fn execute_trade<Q, S>(
        &self,
        opportunity: &TradeOpportunity,
        quote: Q,
        swap: S,
    ) -> (r: Result<TradeResult, TradeError>) where
        Q: FnOnce(String) -> QuoteReply,
        S: FnOnce(&VerifiedOrder) -> SwapReply,

        requires
            forall|url: String| call_requires(quote, (url,)),
            forall|order: &VerifiedOrder| call_requires(swap, (order,)),
        ensures
            match r {
                Err(error) => opportunity_fault(opportunity@) == Some(error),
                Ok(result) => {
                    &&& opportunity_fault(opportunity@) is None
                    &&& result@.is_consistent()
                    &&& exists|url: String, quote_reply: QuoteReply|
                        {
                            &&& url@ == quote_url_text(
                                self.api_url(),
                                opportunity@,
                                self.slippage(),
                            )
                            &&& call_ensures(quote, (url,), quote_reply)
                            &&& match quote_step(
                                self.threshold(),
                                self.slippage(),
                                opportunity@,
                                quote_reply,
                            ) {
                                StepView::Finished(ended) => result@ == ended,
                                StepView::Submit { quote: passed, source } => exists|
                                    order: &VerifiedOrder,
                                    swap_reply: SwapReply,
                                |
                                    {
                                        &&& order.quote_view() == passed
                                        &&& order.quote_source() == source
                                        &&& call_ensures(swap, (order,), swap_reply)
                                        &&& result@ == swap_result(
                                            passed,
                                            opportunity@.amount_in,
                                            swap_reply,
                                        )
                                    },
                            }
                        }
                },
            },
            opportunity@.amount_in <= 0 ==> r == Err::<TradeResult, TradeError>(
                TradeError::NonPositiveAmount,
            ),
    {
        let url = match self.begin_trade(opportunity) {
            Ok(url) => url,
            Err(error) => {
                return Err(error);
            },
        };
        let ghost asked = url;
        let quote_reply = quote(url);
        let ghost answered = quote_reply;
        match self.on_quote(opportunity, quote_reply) {
            TradeStep::Finished(result) => {
                proof {
                    use_type_invariant(&result);
                    assert(call_ensures(quote, (asked,), answered));
                }
                Ok(result)
            },
            TradeStep::Submit(order) => {
                let swap_reply = swap(&order);
                let ghost submitted = order;
                let ghost swapped = swap_reply;
                let result = self.on_swap(order, swap_reply);
                proof {
                    assert(call_ensures(quote, (asked,), answered));
                    assert(call_ensures(swap, (&submitted,), swapped));
                }
                Ok(result)
            },
        }
    }
}

} // verus!
