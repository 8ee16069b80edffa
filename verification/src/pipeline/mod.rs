//! The staged pipeline: its values, its errors and its seed.

pub mod listing;
pub mod offer_flow;
pub mod outputs;
pub mod run;
pub mod seed;
pub mod stages;

use crate::aspect_map::AspectMap;
use crate::decimal::Decimal;
use crate::ebay::listing::{ListingPolicies, PackageWeightAndSizePayload};
use crate::ebay::taxonomy::TaxonomyResponse;
use crate::models::MarketplaceId;
use crate::pipeline::outputs::StageOutput;
use crate::text::{copy_str, copy_strings, texts};
use vstd::prelude::*;

verus! {

/// Whether a failure is the client's or the service's.
#[derive(Debug, Clone, Copy, PartialEq, Eq, Structural)]
pub enum PipelineErrorKind {
    InvalidInput,
    Internal,
}

/// The failure of a stage: which stage, what happened and whose fault it is.
#[derive(Debug)]
pub struct PipelineError {
    stage: &'static str,
    message: String,
    kind: PipelineErrorKind,
}

impl PipelineError {
    /// The stage that failed.
    pub closed spec fn stage_spec(self) -> Seq<char> {
        self.stage@
    }

    /// What happened.
    pub closed spec fn detail_spec(self) -> Seq<char> {
        self.message@
    }

    /// Whose fault it is.
    pub closed spec fn kind_spec(self) -> PipelineErrorKind {
        self.kind
    }

    /// Whether this is the failure of `stage` with text `message` and kind `kind`.
    pub open spec fn is(self, kind: PipelineErrorKind, stage: Seq<char>, message: Seq<char>) -> bool {
        self.kind_spec() == kind && self.stage_spec() == stage && self.detail_spec() == message
    }

    /// A failure that the client caused.
    pub fn invalid_input(stage: &'static str, message: &str) -> (out: PipelineError)
        ensures
            out.is(PipelineErrorKind::InvalidInput, stage@, message@),
    {
        PipelineError { stage, message: copy_str(message), kind: PipelineErrorKind::InvalidInput }
    }

    /// A failure of the service or of what it calls.
    pub fn internal(stage: &'static str, message: &str) -> (out: PipelineError)
        ensures
            out.is(PipelineErrorKind::Internal, stage@, message@),
    {
        PipelineError { stage, message: copy_str(message), kind: PipelineErrorKind::Internal }
    }

    /// The stage that failed.
    pub fn stage(&self) -> (out: &'static str)
        ensures
            out@ == self.stage_spec(),
    {
        self.stage
    }

    /// Whose fault it is.
    pub fn kind(&self) -> (out: PipelineErrorKind)
        ensures
            out == self.kind_spec(),
    {
        self.kind
    }

    /// What happened.
    pub fn detail(&self) -> (out: &str)
        ensures
            out@ == self.detail_spec(),
    {
        self.message.as_str()
    }

    /// The failure in one line.
    pub fn message(&self) -> (out: String)
        ensures
            out@ == "stage `"@ + self.stage_spec() + "` failed: "@ + self.detail_spec(),
    {
        let head = crate::text::concat3("stage `", self.stage, "` failed: ");
        crate::text::concat2(head.as_str(), self.message.as_str())
    }

    /// The failure as a client sees it: the stage as the error, and what happened as its detail.
    pub fn to_api_error(&self) -> (out: crate::models::ApiError)
        ensures
            out.error@ == self.stage_spec(),
            out.detail is Some,
            out.detail->0@ == self.detail_spec(),
    {
        crate::models::ApiError {
            error: copy_str(self.stage),
            detail: Some(self.message.clone()),
        }
    }

    /// The status that the HTTP surface answers with: 400 for the client's
    /// fault, 500 for the service's.
    pub fn http_status(&self) -> (out: u16)
        ensures
            out == if self.kind_spec() == PipelineErrorKind::InvalidInput {
                400u16
            } else {
                500u16
            },
    {
        match self.kind {
            PipelineErrorKind::InvalidInput => 400,
            PipelineErrorKind::Internal => 500,
        }
    }
}

/// What a stage hands on and what it reports.
#[derive(Debug)]
pub struct StageOutcome<T> {
    pub value: T,
    pub output: StageOutput,
}

/// A category that the pipeline can choose.
#[derive(Debug)]
pub struct CategoryDefinition {
    pub id: String,
    pub tree_id: String,
    pub label: String,
    pub narrative: String,
    pub keywords: Vec<String>,
}

/// The settings of a pipeline: the categories to choose from, the largest
/// number of images of one listing, and the hosts that images may come from
/// (every host when there is no list).
#[derive(Debug)]
pub struct PipelineConfig {
    pub categories: Vec<CategoryDefinition>,
    pub max_images: usize,
    pub image_domain_allowlist: Option<Vec<String>>,
}

/// The chosen category.
#[derive(Debug)]
pub struct CategorySelection {
    pub id: String,
    pub tree_id: String,
    pub label: String,
    pub confidence: Decimal,
    pub rationale: String,
}

impl CategorySelection {
    /// Whether two selections hold the same values.
    pub open spec fn same_as(self, other: CategorySelection) -> bool {
        &&& self.id@ == other.id@
        &&& self.tree_id@ == other.tree_id@
        &&& self.label@ == other.label@
        &&& self.confidence == other.confidence
        &&& self.rationale@ == other.rationale@
    }

    /// A copy of the selection.
    pub fn copy(&self) -> (out: CategorySelection)
        ensures
            out.same_as(*self),
    {
        CategorySelection {
            id: self.id.clone(),
            tree_id: self.tree_id.clone(),
            label: self.label.clone(),
            confidence: self.confidence,
            rationale: self.rationale.clone(),
        }
    }
}

/// One aspect of a category as the pipeline sees it.
#[derive(Debug)]
pub struct TaxonomyAspect {
    pub name: String,
    pub required: bool,
    pub samples: Vec<String>,
}

impl TaxonomyAspect {
    /// The aspect as plain values: name, whether it is required, sample values.
    pub open spec fn view(self) -> (Seq<char>, bool, Seq<Seq<char>>) {
        (self.name@, self.required, texts(self.samples@))
    }

    /// A copy of the aspect.
    pub fn copy(&self) -> (out: TaxonomyAspect)
        ensures
            out@ == self@,
    {
        TaxonomyAspect {
            name: self.name.clone(),
            required: self.required,
            samples: copy_strings(&self.samples),
        }
    }
}

/// The views of a sequence of aspects.
pub open spec fn aspect_views(aspects: Seq<TaxonomyAspect>) -> Seq<
    (Seq<char>, bool, Seq<Seq<char>>),
> {
    Seq::new(aspects.len(), |i: int| aspects[i]@)
}

/// The aspects of the chosen category.
#[derive(Debug)]
pub struct TaxonomySpec {
    pub category_id: String,
    pub tree_id: String,
    pub aspects: Vec<TaxonomyAspect>,
    pub raw: TaxonomyResponse,
}

/// A credential with its life time in seconds.
#[derive(Debug)]
pub struct DemoCredentials {
    pub token: String,
    pub expires_in: u64,
}

/// The conditions that a listing may state, and the one it states by default.
#[derive(Debug)]
pub struct ConditionBundle {
    pub allowed: Vec<String>,
    pub default_condition: String,
}

/// The assembled listing.
#[derive(Debug)]
pub struct ListingPlan {
    pub sku: String,
    pub title: String,
    pub price: Decimal,
    pub currency: String,
    pub condition: String,
    pub description: String,
    pub marketplace: MarketplaceId,
    pub merchant_location_key: String,
    pub category_id: String,
    pub media: Vec<String>,
    pub policies: ListingPolicies,
    pub aspects: AspectMap,
    pub package: Option<PackageWeightAndSizePayload>,
}

/// What the inventory push left behind.
#[derive(Debug)]
pub struct InventoryReceipt {
    pub sku: String,
    pub location: String,
    pub quantity: u32,
    pub package: &'static str,
    pub status: &'static str,
}

/// The published offer.
#[derive(Debug)]
pub struct OfferResult {
    pub listing_id: String,
    pub route: String,
    pub preview_url: String,
}

} // verus!
