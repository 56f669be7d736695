use prometheus_clightning_exporter::poll::{Answer, NodePoll, PollAction, PollEvent, Query};
use prometheus_clightning_exporter::producer::LightningMetrics;
use prometheus_clightning_exporter::responses::{
    GetInfo, ListFunds, ListFundsChannel, ListFundsOutput, Peer,
};

fn info() -> GetInfo {
    GetInfo {
        id: "02ab".to_string(),
        alias: "node".to_string(),
        color: "123456".to_string(),
        version: "v0.9.0".to_string(),
        blockheight: 650_000,
        fees_collected_msat: 77,
        network: "bitcoin".to_string(),
    }
}

fn funds() -> ListFunds {
    ListFunds {
        outputs: vec![ListFundsOutput { amount_msat: 1000 }],
        channels: vec![ListFundsChannel { our_amount_msat: 2000 }],
    }
}

fn peers() -> Vec<Peer> {
    vec![Peer { id: "03cd".to_string(), connected: true, channels: Vec::new() }]
}

fn answers() -> Vec<Answer> {
    vec![
        Answer::GetInfo(info()),
        Answer::ListFunds(funds()),
        Answer::ListPeers(peers()),
        Answer::ListNodes { nodes: 5 },
        Answer::ListChannels { channels: 8 },
    ]
}

const QUERIES: [Query; 5] =
    [Query::GetInfo, Query::ListFunds, Query::ListPeers, Query::ListNodes, Query::ListChannels];

#[test]
fn a_poll_asks_its_questions_in_order_and_keeps_every_answer() {
    let mut poll = NodePoll::new();
    let mut action = poll.step(PollEvent::Begun);
    for (query, answer) in QUERIES.iter().zip(answers()) {
        assert_eq!(action, Some(PollAction::Ask(*query)));
        action = poll.step(PollEvent::Answered(answer));
    }
    assert_eq!(
        action,
        Some(PollAction::Finish(Ok(LightningMetrics {
            getinfo: info(),
            listfunds: funds(),
            listpeers: peers(),
            num_nodes: 5,
            num_channels: 8,
        })))
    );
    assert_eq!(poll.step(PollEvent::Begun), None);
    assert_eq!(poll.step(PollEvent::Failed), None);
}

#[test]
fn a_failure_ends_the_poll_at_the_question_that_failed() {
    for failing in 0..5 {
        let mut poll = NodePoll::new();
        poll.step(PollEvent::Begun);
        for answer in answers().into_iter().take(failing) {
            assert!(matches!(poll.step(PollEvent::Answered(answer)), Some(PollAction::Ask(_))));
        }
        assert_eq!(
            poll.step(PollEvent::Failed),
            Some(PollAction::Finish(Err(QUERIES[failing])))
        );
        // What was answered before is gone, and so is the poll.
        assert_eq!(poll.step(PollEvent::Answered(Answer::ListChannels { channels: 1 })), None);
        assert_eq!(poll.step(PollEvent::Failed), None);
    }
}

#[test]
fn an_answer_to_another_question_fails_the_poll() {
    let mut poll = NodePoll::new();
    poll.step(PollEvent::Begun);
    assert_eq!(
        poll.step(PollEvent::Answered(Answer::ListFunds(funds()))),
        Some(PollAction::Finish(Err(Query::GetInfo)))
    );

    let mut poll = NodePoll::new();
    poll.step(PollEvent::Begun);
    poll.step(PollEvent::Answered(Answer::GetInfo(info())));
    poll.step(PollEvent::Answered(Answer::ListFunds(funds())));
    poll.step(PollEvent::Answered(Answer::ListPeers(peers())));
    assert_eq!(
        poll.step(PollEvent::Answered(Answer::ListChannels { channels: 3 })),
        Some(PollAction::Finish(Err(Query::ListNodes)))
    );
}

#[test]
fn a_poll_that_has_not_begun_takes_no_answer() {
    let mut poll = NodePoll::new();
    assert_eq!(poll.step(PollEvent::Answered(Answer::GetInfo(info()))), None);
    assert_eq!(poll.step(PollEvent::Failed), None);
    assert_eq!(poll.step(PollEvent::Begun), Some(PollAction::Ask(Query::GetInfo)));
}

#[test]
fn a_poll_begins_once() {
    let mut poll = NodePoll::new();
    poll.step(PollEvent::Begun);
    assert_eq!(poll.step(PollEvent::Begun), None);
    poll.step(PollEvent::Answered(Answer::GetInfo(info())));
    assert_eq!(poll.step(PollEvent::Begun), None);
    // The poll goes on where it was.
    assert_eq!(
        poll.step(PollEvent::Answered(Answer::ListFunds(funds()))),
        Some(PollAction::Ask(Query::ListPeers))
    );
}

#[test]
fn questions_are_put_by_their_methods() {
    assert_eq!(Query::GetInfo.method(), "getinfo");
    assert_eq!(Query::ListFunds.method(), "listfunds");
    assert_eq!(Query::ListPeers.method(), "listpeers");
    assert_eq!(Query::ListNodes.method(), "listnodes");
    assert_eq!(Query::ListChannels.method(), "listchannels");
}
