use rlog::indexer::{
    classify_reply, Batch, Indexer, IndexerAction, OutputStatus, PostOutcome, Verdict,
};

#[test]
fn pop_of_single_batch_leaves_nothing() {
    let mut batch = Batch::Empty;
    assert!(batch.is_empty());
    batch.push_elements(vec![1u32, 2, 3]);
    assert!(!batch.is_empty());
    assert_eq!(batch.pop_elements(), Some(vec![1, 2, 3]));
    assert!(batch.is_empty());
    assert_eq!(batch.pop_elements(), None);
}

#[test]
fn push_appends_behind_what_waits() {
    let mut batch = Batch::Empty;
    batch.push_elements(vec![1u32, 2]);
    batch.push_elements(vec![3]);
    assert_eq!(batch.pop_elements(), Some(vec![1, 2, 3]));
}

#[test]
fn empty_batch_is_not_nothing() {
    let mut batch: Batch<u32> = Batch::Empty;
    batch.push_elements(vec![]);
    assert!(!batch.is_empty());
    assert_eq!(batch.pop_elements(), Some(vec![]));
    assert!(batch.is_empty());
}

#[test]
fn split_halves_the_elements() {
    let mut batch = Batch::Empty;
    batch.split_because_of_err(vec![1u32, 2, 3, 4, 5]);
    assert_eq!(batch.pop_elements(), Some(vec![1, 2]));
    assert!(!batch.is_empty());
    assert_eq!(batch.pop_elements(), Some(vec![3, 4, 5]));
    assert!(batch.is_empty());
}

#[test]
fn split_puts_second_half_in_front_of_what_waits() {
    let mut batch = Batch::Empty;
    batch.push_elements(vec![10u32, 11]);
    batch.split_because_of_err(vec![1, 2, 3, 4]);
    assert_eq!(batch.pop_elements(), Some(vec![1, 2]));
    assert_eq!(batch.pop_elements(), Some(vec![3, 4, 10, 11]));
    assert_eq!(batch.pop_elements(), None);
}

#[test]
fn split_of_a_single_element_drops_it() {
    let mut batch = Batch::Empty;
    batch.split_because_of_err(vec![1u32]);
    assert!(batch.is_empty());
    batch.push_elements(vec![7]);
    batch.split_because_of_err(vec![1]);
    batch.split_because_of_err(vec![]);
    assert_eq!(batch.pop_elements(), Some(vec![7]));
}

#[test]
fn push_on_a_split_batch_joins_the_remaining() {
    let mut batch = Batch::Empty;
    batch.split_because_of_err(vec![1u32, 2]);
    batch.push_elements(vec![3]);
    assert_eq!(batch.pop_elements(), Some(vec![1]));
    assert_eq!(batch.pop_elements(), Some(vec![2, 3]));
}

#[test]
fn replies_are_classified_by_status_and_body() {
    assert_eq!(classify_reply(200, Some("")), PostOutcome::Accepted);
    assert_eq!(classify_reply(200, None), PostOutcome::Accepted);
    assert_eq!(classify_reply(429, Some("slow down")), PostOutcome::Overloaded);
    assert_eq!(
        classify_reply(400, Some("error: The request payload is too large (10MB)")),
        PostOutcome::PayloadTooLarge
    );
    assert_eq!(classify_reply(400, Some("the request payload is too large")), PostOutcome::Rejected);
    assert_eq!(classify_reply(400, Some("bad json")), PostOutcome::Rejected);
    assert_eq!(classify_reply(400, None), PostOutcome::Rejected);
    assert_eq!(
        classify_reply(413, Some("The request payload is too large")),
        PostOutcome::Rejected
    );
    assert_eq!(classify_reply(500, Some("")), PostOutcome::Rejected);
    assert_eq!(classify_reply(503, None), PostOutcome::Rejected);
}

#[test]
fn status_labels() {
    assert_eq!(OutputStatus::Success.label(), "ok");
    assert_eq!(OutputStatus::TooManyRequests.label(), "toomany");
    assert_eq!(OutputStatus::Failure.label(), "error");
}

#[test]
fn idle_indexer_asks_for_a_batch() {
    let mut indexer: Indexer<u32> = Indexer::new();
    assert!(indexer.is_idle());
    assert_eq!(indexer.next_action(), IndexerAction::Receive);
    assert_eq!(indexer.in_flight(), None);
    assert_eq!(
        indexer.on_response(PostOutcome::Accepted),
        Verdict { indexed: 0, status: None, pause_secs: 0 }
    );
}

#[test]
fn overloaded_backend_gets_the_same_batch_again_after_five_seconds() {
    let mut indexer = Indexer::new();
    indexer.on_batch(vec!["doc"]);
    assert_eq!(indexer.next_action(), IndexerAction::Post);
    assert_eq!(indexer.in_flight(), Some(&vec!["doc"]));
    let verdict = indexer.on_response(PostOutcome::Overloaded);
    assert_eq!(
        verdict,
        Verdict { indexed: 0, status: Some(OutputStatus::TooManyRequests), pause_secs: 5 }
    );
    assert_eq!(indexer.next_action(), IndexerAction::Post);
    assert_eq!(indexer.in_flight(), Some(&vec!["doc"]));
    let verdict = indexer.on_response(PostOutcome::Accepted);
    assert_eq!(verdict, Verdict { indexed: 1, status: Some(OutputStatus::Success), pause_secs: 0 });
    assert_eq!(indexer.next_action(), IndexerAction::Receive);
    assert!(indexer.is_idle());
}

#[test]
fn too_large_batch_of_200_is_split_in_100_and_100() {
    let mut indexer = Indexer::new();
    let batch: Vec<u32> = (0..200).collect();
    indexer.on_batch(batch);
    assert_eq!(indexer.next_action(), IndexerAction::Post);
    assert_eq!(indexer.in_flight().map(|b| b.len()), Some(200));
    let verdict = indexer.on_response(PostOutcome::PayloadTooLarge);
    assert_eq!(verdict, Verdict { indexed: 0, status: None, pause_secs: 1 });

    assert_eq!(indexer.next_action(), IndexerAction::Post);
    let first: Vec<u32> = indexer.in_flight().unwrap().clone();
    assert_eq!(first, (0..100).collect::<Vec<u32>>());
    assert_eq!(indexer.on_response(PostOutcome::Accepted).indexed, 100);

    assert_eq!(indexer.next_action(), IndexerAction::Post);
    let second: Vec<u32> = indexer.in_flight().unwrap().clone();
    assert_eq!(second, (100..200).collect::<Vec<u32>>());
    assert_eq!(indexer.on_response(PostOutcome::Accepted).indexed, 100);

    assert_eq!(indexer.next_action(), IndexerAction::Receive);
    assert!(indexer.is_idle());
}

#[test]
fn too_large_single_document_is_dropped() {
    let mut indexer = Indexer::new();
    indexer.on_batch(vec![1u32]);
    assert_eq!(indexer.next_action(), IndexerAction::Post);
    let verdict = indexer.on_response(PostOutcome::PayloadTooLarge);
    assert_eq!(verdict, Verdict { indexed: 0, status: None, pause_secs: 1 });
    assert_eq!(indexer.next_action(), IndexerAction::Receive);
    assert!(indexer.is_idle());
}

#[test]
fn repeated_splits_go_down_to_single_documents() {
    let mut indexer = Indexer::new();
    indexer.on_batch(vec![1u32, 2, 3]);
    let mut indexed = 0;
    let mut posts = 0;
    loop {
        match indexer.next_action() {
            IndexerAction::Receive => break,
            IndexerAction::Post => {
                posts += 1;
                let size = indexer.in_flight().unwrap().len();
                let outcome = if size > 1 { PostOutcome::PayloadTooLarge } else { PostOutcome::Accepted };
                indexed += indexer.on_response(outcome).indexed;
            }
        }
        assert!(posts < 20);
    }
    assert_eq!(indexed, 3);
}

#[test]
fn rejected_and_unreachable_posts_are_retried_after_one_second() {
    let mut indexer = Indexer::new();
    indexer.on_batch(vec![1u32, 2]);
    assert_eq!(indexer.next_action(), IndexerAction::Post);
    assert_eq!(
        indexer.on_response(PostOutcome::Rejected),
        Verdict { indexed: 0, status: Some(OutputStatus::Failure), pause_secs: 1 }
    );
    assert_eq!(indexer.next_action(), IndexerAction::Post);
    assert_eq!(
        indexer.on_response(PostOutcome::Unreachable),
        Verdict { indexed: 0, status: None, pause_secs: 1 }
    );
    assert_eq!(indexer.next_action(), IndexerAction::Post);
    assert_eq!(indexer.in_flight(), Some(&vec![1, 2]));
}

#[test]
fn unanswered_post_is_offered_again() {
    let mut indexer = Indexer::new();
    indexer.on_batch(vec![1u32]);
    assert_eq!(indexer.next_action(), IndexerAction::Post);
    indexer.on_batch(vec![2]);
    assert_eq!(indexer.next_action(), IndexerAction::Post);
    assert_eq!(indexer.in_flight(), Some(&vec![1]));
    indexer.on_response(PostOutcome::Accepted);
    assert_eq!(indexer.next_action(), IndexerAction::Post);
    assert_eq!(indexer.in_flight(), Some(&vec![2]));
}

#[test]
fn empty_batches_are_passed_over() {
    let mut indexer: Indexer<u32> = Indexer::new();
    indexer.on_batch(vec![]);
    assert!(!indexer.is_idle());
    assert_eq!(indexer.next_action(), IndexerAction::Receive);
    assert!(indexer.is_idle());
}

#[test]
fn a_run_indexes_every_document_once_and_in_order() {
    let batches: Vec<Vec<u32>> = vec![vec![1, 2, 3], vec![], vec![4], vec![5, 6]];
    let mut answers = vec![
        PostOutcome::Overloaded,
        PostOutcome::Unreachable,
        PostOutcome::Accepted,
        PostOutcome::Rejected,
        PostOutcome::Accepted,
        PostOutcome::Accepted,
    ];
    answers.reverse();
    let mut queue = batches.clone();
    queue.reverse();
    let mut indexer: Indexer<u32> = Indexer::new();
    let mut accepted: Vec<u32> = Vec::new();
    loop {
        match indexer.next_action() {
            IndexerAction::Post => {
                let outcome = answers.pop().unwrap();
                if outcome == PostOutcome::Accepted {
                    accepted.extend(indexer.in_flight().unwrap().iter().copied());
                }
                indexer.on_response(outcome);
            }
            IndexerAction::Receive => match queue.pop() {
                Some(batch) => indexer.on_batch(batch),
                None => break,
            },
        }
    }
    assert_eq!(accepted, vec![1, 2, 3, 4, 5, 6]);
    assert!(answers.is_empty());
    assert!(indexer.is_idle());
}
