//! One poll of the node: which questions it is asked, in which order, and what
//! becomes of the answers.
//!
//! A poll gives all of its metrics or none. The first question that fails
//! ends the poll, and what was answered before is dropped.

use vstd::prelude::*;

use crate::producer::LightningMetrics;
use crate::responses::{GetInfo, ListFunds, Peer};

verus! {

/// A question to the node.
#[derive(Debug, Clone, Copy, PartialEq, Eq, Structural)]
pub enum Query {
    GetInfo,
    ListFunds,
    ListPeers,
    ListNodes,
    ListChannels,
}

impl Query {
    /// The name of the RPC method that puts the question.
    pub open spec fn spec_method(self) -> Seq<char> {
        match self {
            Query::GetInfo => "getinfo"@,
            Query::ListFunds => "listfunds"@,
            Query::ListPeers => "listpeers"@,
            Query::ListNodes => "listnodes"@,
            Query::ListChannels => "listchannels"@,
        }
    }

    /// The name of the RPC method that puts the question.
    pub fn method(self) -> (name: &'static str)
        ensures
            name@ == self.spec_method(),
    {
        match self {
            Query::GetInfo => "getinfo",
            Query::ListFunds => "listfunds",
            Query::ListPeers => "listpeers",
            Query::ListNodes => "listnodes",
            Query::ListChannels => "listchannels",
        }
    }
}

/// The node's answer to a question. Of the nodes and channels of the network
/// only their number is taken.
#[derive(Debug, PartialEq, Eq)]
pub enum Answer {
    GetInfo(GetInfo),
    ListFunds(ListFunds),
    ListPeers(Vec<Peer>),
    ListNodes { nodes: usize },
    ListChannels { channels: usize },
}

/// What happened to a poll since its last action.
#[derive(Debug, PartialEq, Eq)]
pub enum PollEvent {
    /// The poll was begun.
    Begun,
    /// The question last asked was answered.
    Answered(Answer),
    /// The question last asked could not be put, or was not answered, or was
    /// answered with an error.
    Failed,
}

/// What the driver of the poll is to do next.
#[derive(Debug, PartialEq, Eq)]
pub enum PollAction {
    /// Put this question to the node and report what came of it.
    Ask(Query),
    /// The poll is over: here are the metrics, or else the question at which
    /// it failed.
    Finish(Result<LightningMetrics, Query>),
}

/// How far a poll has come, with what it has learnt so far.
#[derive(Debug, PartialEq, Eq)]
pub enum PollStage {
    /// Not begun.
    Fresh,
    AskedGetInfo,
    AskedListFunds { getinfo: GetInfo },
    AskedListPeers { getinfo: GetInfo, listfunds: ListFunds },
    AskedListNodes { getinfo: GetInfo, listfunds: ListFunds, listpeers: Vec<Peer> },
    AskedListChannels { getinfo: GetInfo, listfunds: ListFunds, listpeers: Vec<Peer>, nodes: usize },
    /// Over.
    Done,
}

impl PollStage {
    /// The question that is open at this stage, if one is.
    pub open spec fn asked(self) -> Option<Query> {
        match self {
            PollStage::Fresh => None,
            PollStage::AskedGetInfo => Some(Query::GetInfo),
            PollStage::AskedListFunds { .. } => Some(Query::ListFunds),
            PollStage::AskedListPeers { .. } => Some(Query::ListPeers),
            PollStage::AskedListNodes { .. } => Some(Query::ListNodes),
            PollStage::AskedListChannels { .. } => Some(Query::ListChannels),
            PollStage::Done => None,
        }
    }
}

/// The stage after `event` and the action a poll answers with. `None` means
/// that the event does not belong to the stage; the stage is then kept.
///
/// The questions are asked one after the other, the two expensive ones last.
/// A failure ends the poll at once, and so does an answer to another question
/// than the one that is open.
pub open spec fn poll_step(stage: PollStage, event: PollEvent) -> (PollStage, Option<PollAction>) {
    match (stage, event) {
        (PollStage::Fresh, PollEvent::Begun) => (
            PollStage::AskedGetInfo,
            Some(PollAction::Ask(Query::GetInfo)),
        ),
        (PollStage::AskedGetInfo, PollEvent::Answered(Answer::GetInfo(getinfo))) => (
            PollStage::AskedListFunds { getinfo },
            Some(PollAction::Ask(Query::ListFunds)),
        ),
        (
            PollStage::AskedListFunds { getinfo },
            PollEvent::Answered(Answer::ListFunds(listfunds)),
        ) => (
            PollStage::AskedListPeers { getinfo, listfunds },
            Some(PollAction::Ask(Query::ListPeers)),
        ),
        (
            PollStage::AskedListPeers { getinfo, listfunds },
            PollEvent::Answered(Answer::ListPeers(listpeers)),
        ) => (
            PollStage::AskedListNodes { getinfo, listfunds, listpeers },
            Some(PollAction::Ask(Query::ListNodes)),
        ),
        (
            PollStage::AskedListNodes { getinfo, listfunds, listpeers },
            PollEvent::Answered(Answer::ListNodes { nodes }),
        ) => (
            PollStage::AskedListChannels { getinfo, listfunds, listpeers, nodes },
            Some(PollAction::Ask(Query::ListChannels)),
        ),
        (
            PollStage::AskedListChannels { getinfo, listfunds, listpeers, nodes },
            PollEvent::Answered(Answer::ListChannels { channels }),
        ) => (
            PollStage::Done,
            Some(
                PollAction::Finish(
                    Ok(
                        LightningMetrics {
                            getinfo,
                            listfunds,
                            listpeers,
                            num_nodes: nodes as u64,
                            num_channels: channels as u64,
                        },
                    ),
                ),
            ),
        ),
        (PollStage::Fresh, _) => (stage, None),
        (PollStage::Done, _) => (stage, None),
        (_, PollEvent::Begun) => (stage, None),
        _ => (PollStage::Done, Some(PollAction::Finish(Err(stage.asked()->0)))),
    }
}

/// One poll of the node.
#[derive(Debug)]
pub struct NodePoll {
    stage: PollStage,
}

impl View for NodePoll {
    type V = PollStage;

    closed spec fn view(&self) -> PollStage {
        self.stage
    }
}

impl NodePoll {
    /// A poll that has not begun.
    pub fn new() -> (poll: Self)
        ensures
            poll@ == PollStage::Fresh,
    {
        NodePoll { stage: PollStage::Fresh }
    }

    /// Takes in what happened and says what to do next.
    pub fn step(&mut self, event: PollEvent) -> (action: Option<PollAction>)
        ensures
            (final(self)@, action) == poll_step(old(self)@, event),
    {
        let mut stage = PollStage::Done;
        core::mem::swap(&mut self.stage, &mut stage);
        match (stage, event) {
            (PollStage::Fresh, PollEvent::Begun) => {
                self.stage = PollStage::AskedGetInfo;
                Some(PollAction::Ask(Query::GetInfo))
            },
            (PollStage::AskedGetInfo, PollEvent::Answered(Answer::GetInfo(getinfo))) => {
                self.stage = PollStage::AskedListFunds { getinfo };
                Some(PollAction::Ask(Query::ListFunds))
            },
            (
                PollStage::AskedListFunds { getinfo },
                PollEvent::Answered(Answer::ListFunds(listfunds)),
            ) => {
                self.stage = PollStage::AskedListPeers { getinfo, listfunds };
                Some(PollAction::Ask(Query::ListPeers))
            },
            (
                PollStage::AskedListPeers { getinfo, listfunds },
                PollEvent::Answered(Answer::ListPeers(listpeers)),
            ) => {
                self.stage = PollStage::AskedListNodes { getinfo, listfunds, listpeers };
                Some(PollAction::Ask(Query::ListNodes))
            },
            (
                PollStage::AskedListNodes { getinfo, listfunds, listpeers },
                PollEvent::Answered(Answer::ListNodes { nodes }),
            ) => {
                self.stage = PollStage::AskedListChannels { getinfo, listfunds, listpeers, nodes };
                Some(PollAction::Ask(Query::ListChannels))
            },
            (
                PollStage::AskedListChannels { getinfo, listfunds, listpeers, nodes },
                PollEvent::Answered(Answer::ListChannels { channels }),
            ) => {
                Some(
                    PollAction::Finish(
                        Ok(
                            LightningMetrics::from_replies(
                                getinfo,
                                listfunds,
                                listpeers,
                                nodes,
                                channels,
                            ),
                        ),
                    ),
                )
            },
            (PollStage::Fresh, _) => {
                self.stage = PollStage::Fresh;
                None
            },
            (PollStage::Done, _) => None,
            (stage, PollEvent::Begun) => {
                self.stage = stage;
                None
            },
            (PollStage::AskedGetInfo, _) => Some(PollAction::Finish(Err(Query::GetInfo))),
            (PollStage::AskedListFunds { .. }, _) => Some(
                PollAction::Finish(Err(Query::ListFunds)),
            ),
            (PollStage::AskedListPeers { .. }, _) => Some(
                PollAction::Finish(Err(Query::ListPeers)),
            ),
            (PollStage::AskedListNodes { .. }, _) => Some(
                PollAction::Finish(Err(Query::ListNodes)),
            ),
            (PollStage::AskedListChannels { .. }, _) => Some(
                PollAction::Finish(Err(Query::ListChannels)),
            ),
        }
    }
}

/// A poll gives all or nothing: it hands out metrics at one point only, when
/// the last of its questions is answered, and they hold every answer as it
/// was given. Whatever else ends a poll ends it without metrics.
pub proof fn lemma_all_or_nothing(stage: PollStage, event: PollEvent)
    ensures
        poll_step(stage, event).1 matches Some(PollAction::Finish(Ok(metrics))) ==> {
            &&& stage matches PollStage::AskedListChannels { getinfo, listfunds, listpeers, nodes }
            &&& event matches PollEvent::Answered(Answer::ListChannels { channels })
            &&& metrics == (LightningMetrics {
                getinfo,
                listfunds,
                listpeers,
                num_nodes: nodes as u64,
                num_channels: channels as u64,
            })
        },
        poll_step(stage, event).1 matches Some(PollAction::Finish(_)) ==> poll_step(
            stage,
            event,
        ).0 == PollStage::Done,
        stage.asked() is Some ==> poll_step(stage, PollEvent::Failed) == (
            PollStage::Done,
            Some(PollAction::Finish(Err(stage.asked()->0))),
        ),
{
}

} // verus!
