//! Bringing a listing's offer to publication.
//!
//! An offer is created and published. Where the marketplace says that the
//! offer exists already, the existing offer is looked up, changed and
//! published; where the change fails, the offer is withdrawn and the change
//! is tried once more. Each call to the marketplace is made by the caller:
//! the flow says which call is due and takes the reply.

#![allow(non_snake_case)]

use crate::ebay::offers::{EbayOfferError, OfferSummary};
use crate::ids::is_simple_id;
use crate::pipeline::listing::{fallback_listing_id, final_listing_id};
use crate::pipeline::{PipelineError, PipelineErrorKind};
use crate::text::{copy_str, opt_text, same_text};
use vstd::prelude::*;

verus! {

/// Where the flow stands: which reply it waits for.
#[derive(Debug)]
pub enum OfferStep {
    Creating,
    PublishingNew { offer_id: String },
    LookingUp,
    Updating { offer_id: String },
    Withdrawing { offer_id: String },
    UpdatingAgain { offer_id: String },
    PublishingExisting { offer_id: String },
    Done,
}

/// A call to the marketplace that is due.
#[derive(Debug)]
pub enum OfferCall {
    CreateOffer,
    PublishOffer { offer_id: String },
    GetOffersBySku { sku: String },
    UpdateOffer { offer_id: String },
    WithdrawOffer { offer_id: String },
}

/// What the marketplace said to a call.
#[derive(Debug)]
#[allow(inconsistent_fields)]
pub enum OfferReply {
    Created { outcome: Result<String, EbayOfferError> },
    Published { outcome: Result<String, EbayOfferError> },
    Found { outcome: Result<Vec<OfferSummary>, EbayOfferError> },
    Updated { outcome: Result<(), EbayOfferError> },
    Withdrawn { outcome: Result<(), EbayOfferError> },
}

/// A published offer: the listing's id and the offer's.
#[derive(Debug)]
pub struct PublishedOffer {
    pub listing_id: String,
    pub offer_id: Option<String>,
}

/// What the flow does next: another call, or the end.
#[derive(Debug)]
pub enum OfferProgress {
    Call { call: OfferCall },
    Finished { outcome: Result<PublishedOffer, PipelineError> },
}

/// The flow of one offer.
#[derive(Debug)]
pub struct OfferFlow {
    pub step: OfferStep,
    pub sku: String,
    pub marketplace_id: String,
}

/// The position of the first offer of the marketplace, or the number of
/// offers when there is none.
pub open spec fn first_of_marketplace(offers: Seq<OfferSummary>, marketplace: Seq<char>) -> int
    decreases offers.len(),
{
    if offers.len() == 0 {
        0
    } else if opt_text(offers[0].marketplaceId) == Some(marketplace) {
        0
    } else {
        1 + first_of_marketplace(offers.drop_first(), marketplace)
    }
}

/// The offer to reconcile with: the first of the marketplace, else the
/// first of all; its id, when it has one.
pub open spec fn candidate_spec(offers: Seq<OfferSummary>, marketplace: Seq<char>) -> Option<
    Seq<char>,
> {
    if offers.len() == 0 {
        None
    } else {
        let at = first_of_marketplace(offers, marketplace);
        opt_text(
            offers[if at < offers.len() {
                at
            } else {
                0
            }].offerId,
        )
    }
}

/// The offer to reconcile with.
pub fn pick_candidate(offers: &Vec<OfferSummary>, marketplace_id: &str) -> (out: Option<String>)
    ensures
        opt_text(out) == candidate_spec(offers@, marketplace_id@),
{
    if offers.len() == 0 {
        return None;
    }
    let mut i: usize = 0;
    assert(offers@.subrange(0, offers@.len() as int) =~= offers@);
    while i < offers.len()
        invariant
            i <= offers@.len(),
            offers@.len() > 0,
            first_of_marketplace(offers@, marketplace_id@) == i + first_of_marketplace(
                offers@.subrange(i as int, offers@.len() as int),
                marketplace_id@,
            ),
        decreases offers@.len() - i,
    {
        let ghost rest = offers@.subrange(i as int, offers@.len() as int);
        assert(rest[0] == offers@[i as int]);
        let hit = match &offers[i].marketplaceId {
            Some(m) => same_text(m.as_str(), marketplace_id),
            None => false,
        };
        if hit {
            return crate::text::copy_opt(&offers[i].offerId);
        }
        assert(rest.drop_first() =~= offers@.subrange(i + 1, offers@.len() as int));
        i += 1;
    }
    crate::text::copy_opt(&offers[0].offerId)
}

impl OfferStep {
    /// How many replies the flow can still take at most.
    pub open spec fn rank(self) -> nat {
        match self {
            OfferStep::Creating => 6,
            OfferStep::LookingUp => 5,
            OfferStep::Updating { .. } => 4,
            OfferStep::Withdrawing { .. } => 3,
            OfferStep::UpdatingAgain { .. } => 2,
            OfferStep::PublishingNew { .. } => 1,
            OfferStep::PublishingExisting { .. } => 1,
            OfferStep::Done => 0,
        }
    }

    /// The offer that the step works on, when it works on one.
    pub open spec fn offer(self) -> Option<Seq<char>> {
        match self {
            OfferStep::PublishingNew { offer_id } => Some(offer_id@),
            OfferStep::Updating { offer_id } => Some(offer_id@),
            OfferStep::Withdrawing { offer_id } => Some(offer_id@),
            OfferStep::UpdatingAgain { offer_id } => Some(offer_id@),
            OfferStep::PublishingExisting { offer_id } => Some(offer_id@),
            _ => None,
        }
    }
}

/// Whether `progress` ends the flow with the failure `message` of the
/// publish stage, which is the service's.
pub open spec fn fails_with(progress: OfferProgress, message: Seq<char>) -> bool {
    progress matches OfferProgress::Finished { outcome: Err(e) } && e.is(
        PipelineErrorKind::Internal,
        "publish_offer"@,
        message,
    )
}

/// Whether `progress` ends the flow with the offer `offer_id` published
/// under the id that the marketplace gave, or under one made here where it
/// gave an empty one.
pub open spec fn succeeds_with(progress: OfferProgress, published: Seq<char>, offer_id: Seq<char>) -> bool {
    progress matches OfferProgress::Finished { outcome: Ok(done) } && opt_text(done.offer_id)
        == Some(offer_id) && (if published.len() > 0 {
        done.listing_id@ == published
    } else {
        done.listing_id@.len() == 36 && done.listing_id@.take(4) == "HER-"@ && is_simple_id(
            done.listing_id@.skip(4),
        )
    })
}

/// Whether `progress` asks for the call `call` on the offer `offer_id`.
pub open spec fn calls_publish(progress: OfferProgress, offer_id: Seq<char>) -> bool {
    progress matches OfferProgress::Call { call: OfferCall::PublishOffer { offer_id: o } } && o@
        == offer_id
}

/// Whether `progress` asks to change the offer `offer_id`.
pub open spec fn calls_update(progress: OfferProgress, offer_id: Seq<char>) -> bool {
    progress matches OfferProgress::Call { call: OfferCall::UpdateOffer { offer_id: o } } && o@
        == offer_id
}

/// Whether `progress` asks to withdraw the offer `offer_id`.
pub open spec fn calls_withdraw(progress: OfferProgress, offer_id: Seq<char>) -> bool {
    progress matches OfferProgress::Call { call: OfferCall::WithdrawOffer { offer_id: o } } && o@
        == offer_id
}

/// Whether `progress` asks for the offers of the stock keeping unit `sku`.
pub open spec fn calls_lookup(progress: OfferProgress, sku: Seq<char>) -> bool {
    progress matches OfferProgress::Call { call: OfferCall::GetOffersBySku { sku: s } } && s@
        == sku
}

/// What the text of a reply that came out of turn is.
pub open spec fn out_of_turn() -> Seq<char> {
    "reply does not answer the call that was due"@
}

/// The protocol: whether the flow, standing at `before` and given `reply`,
/// may stand at `after` and do `progress`.
pub open spec fn follows(
    before: OfferStep,
    reply: OfferReply,
    after: OfferStep,
    progress: OfferProgress,
    sku: Seq<char>,
    marketplace: Seq<char>,
) -> bool {
    match (before, reply) {
        (OfferStep::Creating, OfferReply::Created { outcome: Ok(id) }) => after
            is PublishingNew && after.offer() == Some(id@) && calls_publish(progress, id@),
        (
            OfferStep::Creating,
            OfferReply::Created { outcome: Err(EbayOfferError::EntityExists) },
        ) => after is LookingUp && calls_lookup(progress, sku),
        (OfferStep::Creating, OfferReply::Created { outcome: Err(e) }) => after is Done
            && fails_with(progress, e.message_spec()),
        (OfferStep::PublishingNew { offer_id }, OfferReply::Published { outcome: Ok(listing) }) => {
            after is Done && succeeds_with(progress, listing@, offer_id@)
        },
        (OfferStep::PublishingNew { .. }, OfferReply::Published { outcome: Err(e) }) => after
            is Done && fails_with(progress, e.message_spec()),
        (OfferStep::LookingUp, OfferReply::Found { outcome: Ok(offers) }) => match candidate_spec(
            offers@,
            marketplace,
        ) {
            Some(id) => after is Updating && after.offer() == Some(id) && calls_update(
                progress,
                id,
            ),
            None => after is Done && fails_with(
                progress,
                "no existing offer found for reconciliation"@,
            ),
        },
        (OfferStep::LookingUp, OfferReply::Found { outcome: Err(e) }) => after is Done
            && fails_with(progress, e.message_spec()),
        (OfferStep::Updating { offer_id }, OfferReply::Updated { outcome: Ok(_) }) => after
            is PublishingExisting && after.offer() == Some(offer_id@) && calls_publish(
            progress,
            offer_id@,
        ),
        (OfferStep::Updating { offer_id }, OfferReply::Updated { outcome: Err(_) }) => after
            is Withdrawing && after.offer() == Some(offer_id@) && calls_withdraw(
            progress,
            offer_id@,
        ),
        (OfferStep::Withdrawing { offer_id }, OfferReply::Withdrawn { outcome: Ok(_) }) => after
            is UpdatingAgain && after.offer() == Some(offer_id@) && calls_update(
            progress,
            offer_id@,
        ),
        (OfferStep::Withdrawing { .. }, OfferReply::Withdrawn { outcome: Err(e) }) => after
            is Done && fails_with(progress, e.message_spec()),
        (OfferStep::UpdatingAgain { offer_id }, OfferReply::Updated { outcome: Ok(_) }) => after
            is PublishingExisting && after.offer() == Some(offer_id@) && calls_publish(
            progress,
            offer_id@,
        ),
        (OfferStep::UpdatingAgain { .. }, OfferReply::Updated { outcome: Err(e) }) => after
            is Done && fails_with(progress, e.message_spec()),
        (
            OfferStep::PublishingExisting { offer_id },
            OfferReply::Published { outcome: Ok(listing) },
        ) => after is Done && succeeds_with(progress, listing@, offer_id@),
        (OfferStep::PublishingExisting { .. }, OfferReply::Published { outcome: Err(e) }) => after
            is Done && fails_with(progress, e.message_spec()),
        _ => after is Done && fails_with(progress, out_of_turn()),
    }
}

fn failed(message: &str) -> (out: OfferProgress)
    ensures
        fails_with(out, message@),
{
    OfferProgress::Finished { outcome: Err(PipelineError::internal("publish_offer", message)) }
}

fn failed_as(e: &EbayOfferError) -> (out: OfferProgress)
    ensures
        fails_with(out, e.message_spec()),
{
    let m = e.message();
    failed(m.as_str())
}

fn published(listing: String, offer_id: String) -> (out: OfferProgress)
    ensures
        succeeds_with(out, listing@, offer_id@),
{
    let fresh = fallback_listing_id();
    let listing_id = final_listing_id(listing, fresh);
    OfferProgress::Finished { outcome: Ok(PublishedOffer { listing_id, offer_id: Some(offer_id) }) }
}

fn take_step(flow: &mut OfferFlow) -> (out: OfferStep)
    ensures
        out == old(flow).step,
        final(flow).step is Done,
        final(flow).sku == old(flow).sku,
        final(flow).marketplace_id == old(flow).marketplace_id,
{
    let mut step = OfferStep::Done;
    std::mem::swap(&mut flow.step, &mut step);
    step
}

impl OfferFlow {
    /// The flow for the offer of `sku` on the marketplace `marketplace_id`;
    /// the first call that is due creates the offer.
    pub fn start(sku: &str, marketplace_id: &str) -> (out: (OfferFlow, OfferCall))
        ensures
            out.0.step is Creating,
            out.0.sku@ == sku@,
            out.0.marketplace_id@ == marketplace_id@,
            out.1 is CreateOffer,
    {
        (
            OfferFlow {
                step: OfferStep::Creating,
                sku: copy_str(sku),
                marketplace_id: copy_str(marketplace_id),
            },
            OfferCall::CreateOffer,
        )
    }

    /// Whether the flow has ended.
    pub fn is_done(&self) -> (out: bool)
        ensures
            out == (self.step is Done),
    {
        match &self.step {
            OfferStep::Done => true,
            _ => false,
        }
    }

    /// Takes the marketplace's reply to the call that was due and says what
    /// is next. Every reply brings the flow nearer to its end, and the flow
    /// ends exactly when no further call is asked for.
    pub fn advance(&mut self, reply: OfferReply) -> (out: OfferProgress)
        ensures
            follows(old(self).step, reply, final(self).step, out, old(self).sku@, old(
                self,
            ).marketplace_id@),
            final(self).sku@ == old(self).sku@,
            final(self).marketplace_id@ == old(self).marketplace_id@,
            final(self).step is Done <==> out is Finished,
            !(old(self).step is Done) ==> final(self).step.rank() < old(self).step.rank(),
    {
        let step = take_step(self);
        match step {
            OfferStep::Creating => match reply {
                OfferReply::Created { outcome } => match outcome {
                    Ok(id) => {
                        self.step = OfferStep::PublishingNew { offer_id: id.clone() };
                        OfferProgress::Call { call: OfferCall::PublishOffer { offer_id: id } }
                    },
                    Err(e) => match e {
                        EbayOfferError::EntityExists => {
                            self.step = OfferStep::LookingUp;
                            OfferProgress::Call {
                                call: OfferCall::GetOffersBySku { sku: self.sku.clone() },
                            }
                        },
                        EbayOfferError::Request(_) => failed_as(&e),
                    },
                },
                _ => failed("reply does not answer the call that was due"),
            },
            OfferStep::PublishingNew { offer_id } => match reply {
                OfferReply::Published { outcome } => match outcome {
                    Ok(listing) => published(listing, offer_id),
                    Err(e) => failed_as(&e),
                },
                _ => failed("reply does not answer the call that was due"),
            },
            OfferStep::LookingUp => match reply {
                OfferReply::Found { outcome } => match outcome {
                    Ok(offers) => match pick_candidate(&offers, self.marketplace_id.as_str()) {
                        Some(id) => {
                            self.step = OfferStep::Updating { offer_id: id.clone() };
                            OfferProgress::Call { call: OfferCall::UpdateOffer { offer_id: id } }
                        },
                        None => failed("no existing offer found for reconciliation"),
                    },
                    Err(e) => failed_as(&e),
                },
                _ => failed("reply does not answer the call that was due"),
            },
            OfferStep::Updating { offer_id } => match reply {
                OfferReply::Updated { outcome } => match outcome {
                    Ok(_) => {
                        self.step = OfferStep::PublishingExisting { offer_id: offer_id.clone() };
                        OfferProgress::Call { call: OfferCall::PublishOffer { offer_id } }
                    },
                    Err(_) => {
                        self.step = OfferStep::Withdrawing { offer_id: offer_id.clone() };
                        OfferProgress::Call { call: OfferCall::WithdrawOffer { offer_id } }
                    },
                },
                _ => failed("reply does not answer the call that was due"),
            },
            OfferStep::Withdrawing { offer_id } => match reply {
                OfferReply::Withdrawn { outcome } => match outcome {
                    Ok(_) => {
                        self.step = OfferStep::UpdatingAgain { offer_id: offer_id.clone() };
                        OfferProgress::Call { call: OfferCall::UpdateOffer { offer_id } }
                    },
                    Err(e) => failed_as(&e),
                },
                _ => failed("reply does not answer the call that was due"),
            },
            OfferStep::UpdatingAgain { offer_id } => match reply {
                OfferReply::Updated { outcome } => match outcome {
                    Ok(_) => {
                        self.step = OfferStep::PublishingExisting { offer_id: offer_id.clone() };
                        OfferProgress::Call { call: OfferCall::PublishOffer { offer_id } }
                    },
                    Err(e) => failed_as(&e),
                },
                _ => failed("reply does not answer the call that was due"),
            },
            OfferStep::PublishingExisting { offer_id } => match reply {
                OfferReply::Published { outcome } => match outcome {
                    Ok(listing) => published(listing, offer_id),
                    Err(e) => failed_as(&e),
                },
                _ => failed("reply does not answer the call that was due"),
            },
            OfferStep::Done => failed("reply does not answer the call that was due"),
        }
    }
}

/// A flow ends with exactly one of two outcomes: a published offer, or a
/// failure of the service at the publish stage. It never ends with a
/// failure that is the client's.
pub proof fn lemma_flow_ends_one_way(
    before: OfferStep,
    reply: OfferReply,
    after: OfferStep,
    progress: OfferProgress,
    sku: Seq<char>,
    marketplace: Seq<char>,
)
    requires
        follows(before, reply, after, progress, sku, marketplace),
        progress is Finished,
    ensures
        progress->outcome is Ok || (progress->outcome->Err_0.kind_spec()
            == PipelineErrorKind::Internal && progress->outcome->Err_0.stage_spec()
            == "publish_offer"@),
        progress->outcome is Ok ==> progress->outcome->Ok_0.listing_id@.len() > 0,
{
}

} // verus!
