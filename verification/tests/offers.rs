use hermes_api::ebay::offers::{
    check_create_status, check_offer_status, offer_publish_url, offer_url, offer_withdraw_url,
    offers_url, EbayOfferError, OfferSummary,
};
use hermes_api::pipeline::offer_flow::{
    pick_candidate, OfferCall, OfferFlow, OfferProgress, OfferReply, OfferStep,
};
use hermes_api::pipeline::PipelineErrorKind;

fn offer(id: Option<&str>, marketplace: Option<&str>) -> OfferSummary {
    OfferSummary {
        offerId: id.map(|s| s.to_string()),
        marketplaceId: marketplace.map(|s| s.to_string()),
    }
}

#[test]
fn created_offer_is_published() {
    let (mut flow, first) = OfferFlow::start("sku-1", "EBAY_US");
    assert!(matches!(first, OfferCall::CreateOffer));
    let next = flow.advance(OfferReply::Created { outcome: Ok("O9".to_string()) });
    match next {
        OfferProgress::Call { call: OfferCall::PublishOffer { offer_id } } => {
            assert_eq!(offer_id, "O9")
        }
        other => panic!("unexpected: {:?}", other),
    }
    let end = flow.advance(OfferReply::Published { outcome: Ok("L9".to_string()) });
    match end {
        OfferProgress::Finished { outcome } => {
            let done = outcome.expect("published");
            assert_eq!(done.listing_id, "L9");
            assert_eq!(done.offer_id.as_deref(), Some("O9"));
        }
        other => panic!("unexpected: {:?}", other),
    }
    assert!(flow.is_done());
}

#[test]
fn offer_409_reconciliation() {
    let (mut flow, _) = OfferFlow::start("sku-1", "EBAY_US");
    let next = flow.advance(OfferReply::Created { outcome: Err(EbayOfferError::EntityExists) });
    match next {
        OfferProgress::Call { call: OfferCall::GetOffersBySku { sku } } => assert_eq!(sku, "sku-1"),
        other => panic!("unexpected: {:?}", other),
    }
    let next = flow.advance(OfferReply::Found {
        outcome: Ok(vec![offer(Some("O1"), Some("EBAY_US"))]),
    });
    match next {
        OfferProgress::Call { call: OfferCall::UpdateOffer { offer_id } } => {
            assert_eq!(offer_id, "O1")
        }
        other => panic!("unexpected: {:?}", other),
    }
    let next = flow.advance(OfferReply::Updated { outcome: Ok(()) });
    assert!(matches!(next, OfferProgress::Call { call: OfferCall::PublishOffer { .. } }));
    let end = flow.advance(OfferReply::Published { outcome: Ok("L1".to_string()) });
    match end {
        OfferProgress::Finished { outcome } => {
            let done = outcome.expect("published");
            assert_eq!(done.listing_id, "L1");
            assert_eq!(done.offer_id.as_deref(), Some("O1"));
        }
        other => panic!("unexpected: {:?}", other),
    }
}

#[test]
fn failed_update_withdraws_and_tries_once_more() {
    let (mut flow, _) = OfferFlow::start("sku-1", "EBAY_DE");
    flow.advance(OfferReply::Created { outcome: Err(EbayOfferError::EntityExists) });
    flow.advance(OfferReply::Found {
        outcome: Ok(vec![offer(Some("A"), Some("EBAY_US")), offer(Some("B"), Some("EBAY_DE"))]),
    });
    let next = flow.advance(OfferReply::Updated {
        outcome: Err(EbayOfferError::Request("HTTP 400".to_string())),
    });
    match next {
        OfferProgress::Call { call: OfferCall::WithdrawOffer { offer_id } } => {
            assert_eq!(offer_id, "B")
        }
        other => panic!("unexpected: {:?}", other),
    }
    let next = flow.advance(OfferReply::Withdrawn { outcome: Ok(()) });
    match next {
        OfferProgress::Call { call: OfferCall::UpdateOffer { offer_id } } => {
            assert_eq!(offer_id, "B")
        }
        other => panic!("unexpected: {:?}", other),
    }
    let next = flow.advance(OfferReply::Updated { outcome: Ok(()) });
    assert!(matches!(next, OfferProgress::Call { call: OfferCall::PublishOffer { .. } }));
    let end = flow.advance(OfferReply::Published { outcome: Ok(String::new()) });
    match end {
        OfferProgress::Finished { outcome } => {
            let done = outcome.expect("published");
            assert!(done.listing_id.starts_with("HER-"));
            assert_eq!(done.listing_id.len(), 36);
            assert_eq!(done.offer_id.as_deref(), Some("B"));
        }
        other => panic!("unexpected: {:?}", other),
    }
}

#[test]
fn second_failed_update_ends_the_flow() {
    let (mut flow, _) = OfferFlow::start("sku-1", "EBAY_US");
    flow.advance(OfferReply::Created { outcome: Err(EbayOfferError::EntityExists) });
    flow.advance(OfferReply::Found { outcome: Ok(vec![offer(Some("O1"), None)]) });
    flow.advance(OfferReply::Updated {
        outcome: Err(EbayOfferError::Request("HTTP 400".to_string())),
    });
    flow.advance(OfferReply::Withdrawn { outcome: Ok(()) });
    let end = flow.advance(OfferReply::Updated {
        outcome: Err(EbayOfferError::Request("HTTP 500 Internal Server Error".to_string())),
    });
    match end {
        OfferProgress::Finished { outcome } => {
            let err = outcome.expect_err("fails");
            assert_eq!(err.kind(), PipelineErrorKind::Internal);
            assert_eq!(err.stage(), "publish_offer");
            assert_eq!(err.detail(), "request failed: HTTP 500 Internal Server Error");
        }
        other => panic!("unexpected: {:?}", other),
    }
    assert!(matches!(flow.step, OfferStep::Done));
}

#[test]
fn no_existing_offer_is_a_failure_of_the_service() {
    let (mut flow, _) = OfferFlow::start("sku-1", "EBAY_US");
    flow.advance(OfferReply::Created { outcome: Err(EbayOfferError::EntityExists) });
    let end = flow.advance(OfferReply::Found { outcome: Ok(Vec::new()) });
    match end {
        OfferProgress::Finished { outcome } => {
            let err = outcome.expect_err("fails");
            assert_eq!(err.kind(), PipelineErrorKind::Internal);
            assert_eq!(err.detail(), "no existing offer found for reconciliation");
        }
        other => panic!("unexpected: {:?}", other),
    }
}

#[test]
fn other_create_failures_end_the_flow() {
    let (mut flow, _) = OfferFlow::start("sku-1", "EBAY_US");
    let end = flow.advance(OfferReply::Created {
        outcome: Err(EbayOfferError::Request("HTTP 401 Unauthorized".to_string())),
    });
    match end {
        OfferProgress::Finished { outcome } => {
            let err = outcome.expect_err("fails");
            assert_eq!(err.stage(), "publish_offer");
            assert_eq!(err.detail(), "request failed: HTTP 401 Unauthorized");
        }
        other => panic!("unexpected: {:?}", other),
    }
}

#[test]
fn reply_out_of_turn_ends_the_flow() {
    let (mut flow, _) = OfferFlow::start("sku-1", "EBAY_US");
    let end = flow.advance(OfferReply::Published { outcome: Ok("L".to_string()) });
    assert!(matches!(end, OfferProgress::Finished { outcome: Err(_) }));
    assert!(flow.is_done());
    let again = flow.advance(OfferReply::Created { outcome: Ok("O".to_string()) });
    assert!(matches!(again, OfferProgress::Finished { outcome: Err(_) }));
}

#[test]
fn candidate_is_the_marketplace_match_or_the_first() {
    let offers = vec![offer(Some("A"), Some("EBAY_GB")), offer(Some("B"), Some("EBAY_US"))];
    assert_eq!(pick_candidate(&offers, "EBAY_US").as_deref(), Some("B"));
    assert_eq!(pick_candidate(&offers, "EBAY_DE").as_deref(), Some("A"));
    let nameless = vec![offer(None, Some("EBAY_US")), offer(Some("B"), Some("EBAY_US"))];
    assert_eq!(pick_candidate(&nameless, "EBAY_US"), None);
    assert_eq!(pick_candidate(&Vec::new(), "EBAY_US"), None);
}

#[test]
fn offer_addresses() {
    assert_eq!(offers_url("https://r"), "https://r/sell/inventory/v1/offer");
    assert_eq!(offer_url("https://r", "O1"), "https://r/sell/inventory/v1/offer/O1");
    assert_eq!(offer_publish_url("https://r", "O1"), "https://r/sell/inventory/v1/offer/O1/publish");
    assert_eq!(
        offer_withdraw_url("https://r", "O1"),
        "https://r/sell/inventory/v1/offer/O1/withdraw"
    );
}

#[test]
fn status_409_means_the_offer_exists() {
    assert!(matches!(check_create_status(409, "409 Conflict"), Err(EbayOfferError::EntityExists)));
    assert!(check_create_status(201, "201 Created").is_ok());
    match check_create_status(500, "500 Internal Server Error") {
        Err(EbayOfferError::Request(m)) => assert_eq!(m, "HTTP 500 Internal Server Error"),
        other => panic!("unexpected: {:?}", other),
    }
    assert!(check_offer_status(204, "204 No Content").is_ok());
    match check_offer_status(409, "409 Conflict") {
        Err(EbayOfferError::Request(m)) => assert_eq!(m, "HTTP 409 Conflict"),
        other => panic!("unexpected: {:?}", other),
    }
    assert_eq!(EbayOfferError::EntityExists.message(), "entity already exists");
}
