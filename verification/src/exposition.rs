//! From a poll result to the gauges that a scraper is shown.
//!
//! The functions here decide which gauges exist, what they are called and what
//! they read. Turning the list into the text exposition format is left to the
//! caller.

use vstd::prelude::*;

use crate::producer::LightningMetrics;
use crate::responses::{Channel, ListFundsChannel, ListFundsOutput, Peer};

verus! {

/// One gauge, ready to be rendered.
#[derive(Debug, Clone, PartialEq, Eq)]
pub struct Gauge {
    pub namespace: String,
    pub name: String,
    /// Absent where the gauge was described with an empty help text.
    pub help: Option<String>,
    pub labels: Vec<(String, String)>,
    pub value: u64,
}

/// What a [`Gauge`] says, with its texts as sequences of characters.
pub struct GaugeView {
    pub namespace: Seq<char>,
    pub name: Seq<char>,
    pub help: Option<Seq<char>>,
    pub labels: Seq<(Seq<char>, Seq<char>)>,
    pub value: u64,
}

impl DeepView for Gauge {
    type V = GaugeView;

    open spec fn deep_view(&self) -> GaugeView {
        GaugeView {
            namespace: self.namespace@,
            name: self.name@,
            help: self.help.deep_view(),
            labels: self.labels.deep_view(),
            value: self.value,
        }
    }
}

impl View for Gauge {
    type V = GaugeView;

    open spec fn view(&self) -> GaugeView {
        self.deep_view()
    }
}

/// The gauge that `gauge_label` records for its arguments: every gauge lives
/// in the namespace `lightning`, and an empty help text is no help text.
pub open spec fn gauge(
    name: Seq<char>,
    val: u64,
    help: Seq<char>,
    labels: Seq<(Seq<char>, Seq<char>)>,
) -> GaugeView {
    GaugeView {
        namespace: "lightning"@,
        name,
        help: if help.len() == 0 {
            None
        } else {
            Some(help)
        },
        labels,
        value: val,
    }
}

/// The labels that every gauge of one channel carries: the peer's id and the
/// channel's short id, or `pending` while it has none.
pub open spec fn channel_labels(peer: Seq<char>, chan: Channel) -> Seq<(Seq<char>, Seq<char>)> {
    let scid = match chan.short_channel_id {
        Some(s) => s@,
        None => "pending"@,
    };
    seq![("id"@, peer), ("scid"@, scid)]
}

/// The twelve gauges of one channel, in the order in which they are recorded.
pub open spec fn channel_gauges(peer: Seq<char>, chan: Channel) -> Seq<GaugeView> {
    let labels = channel_labels(peer, chan);
    seq![
        gauge(
            "channel_balance"@,
            chan.to_us_msat,
            "How many funds are at our disposal?"@,
            labels,
        ),
        gauge(
            "channel_spendable"@,
            chan.spendable_msat,
            "How much can we currently send over this channel?"@,
            labels,
        ),
        gauge(
            "channel_capacity"@,
            chan.total_msat,
            "How many funds are in this channel in total?"@,
            labels,
        ),
        gauge(
            "channel_htlcs"@,
            chan.htlcs,
            "How many HTLCs are currently active on this channel?"@,
            labels,
        ),
        gauge(
            "channel_in_payments_offered"@,
            chan.in_payments_offered,
            "How many incoming payments did we try to forward?"@,
            labels,
        ),
        gauge(
            "channel_in_payments_fulfilled"@,
            chan.in_payments_fulfilled,
            "How many incoming payments did we succeed to forward?"@,
            labels,
        ),
        gauge(
            "channel_in_msatoshi_offered"@,
            chan.in_offered_msat,
            "How many incoming msats did we try to forward?"@,
            labels,
        ),
        gauge(
            "channel_in_msatoshi_fulfilled"@,
            chan.in_fulfilled_msat,
            "How many incoming msats did we succeed to forward?"@,
            labels,
        ),
        gauge(
            "channel_out_payments_offered"@,
            chan.out_payments_offered,
            "How many outgoing payments did we try to forward?"@,
            labels,
        ),
        gauge(
            "channel_out_payments_fulfilled"@,
            chan.out_payments_fulfilled,
            "How many outgoing payments did we succeed to forward?"@,
            labels,
        ),
        gauge(
            "channel_out_msatoshi_offered"@,
            chan.out_offered_msat,
            "How many outgoing msats did we try to forward?"@,
            labels,
        ),
        gauge(
            "channel_out_msatoshi_fulfilled"@,
            chan.out_fulfilled_msat,
            "How many outgoing msats did we succeed to forward?"@,
            labels,
        ),
    ]
}

/// The gauges of a sequence of channels with one peer, channel after channel.
pub open spec fn channels_gauges(peer: Seq<char>, chans: Seq<Channel>) -> Seq<GaugeView>
    decreases chans.len(),
{
    if chans.len() == 0 {
        Seq::empty()
    } else {
        channels_gauges(peer, chans.drop_last()) + channel_gauges(peer, chans.last())
    }
}

/// The gauges of one peer: how many channels it has, whether it is connected,
/// then the gauges of each of its channels.
pub open spec fn peer_gauges(peer: Peer) -> Seq<GaugeView> {
    seq![
        gauge(
            "peer_channels"@,
            peer.channels@.len() as u64,
            "The number of channels with the peer"@,
            seq![("id"@, peer.id@)],
        ),
        gauge(
            "peer_connected"@,
            if peer.connected {
                1u64
            } else {
                0u64
            },
            "Is the peer currently connected?"@,
            seq![("id"@, peer.id@)],
        ),
    ] + channels_gauges(peer.id@, peer.channels@)
}

/// The gauges of a sequence of peers, peer after peer.
pub open spec fn peers_gauges(peers: Seq<Peer>) -> Seq<GaugeView>
    decreases peers.len(),
{
    if peers.len() == 0 {
        Seq::empty()
    } else {
        peers_gauges(peers.drop_last()) + peer_gauges(peers.last())
    }
}

/// The millisatoshi held in a sequence of on-chain outputs.
pub open spec fn outputs_msat(outputs: Seq<ListFundsOutput>) -> nat
    decreases outputs.len(),
{
    if outputs.len() == 0 {
        0
    } else {
        outputs_msat(outputs.drop_last()) + outputs.last().amount_msat as nat
    }
}

/// The millisatoshi that are the node's own in a sequence of channels.
pub open spec fn channels_msat(channels: Seq<ListFundsChannel>) -> nat
    decreases channels.len(),
{
    if channels.len() == 0 {
        0
    } else {
        channels_msat(channels.drop_last()) + channels.last().our_amount_msat as nat
    }
}

/// Whether both totals of funds fit the 64 bits in which they are summed.
pub open spec fn funds_fit(lm: LightningMetrics) -> bool {
    &&& outputs_msat(lm.listfunds.outputs@) <= u64::MAX
    &&& channels_msat(lm.listfunds.channels@) <= u64::MAX
}

/// The gauges that describe the node itself: that it is up, who it is, how
/// high its chain is, what it has earned and what it owns, in whole satoshi.
pub open spec fn node_gauges(lm: LightningMetrics) -> Seq<GaugeView> {
    let output_funds = (outputs_msat(lm.listfunds.outputs@) / 1000) as u64;
    let channel_funds = (channels_msat(lm.listfunds.channels@) / 1000) as u64;
    seq![
        gauge("up"@, 1, "Is the node running?"@, Seq::empty()),
        gauge(
            "node_info"@,
            1,
            "Static node information"@,
            seq![
                ("id"@, lm.getinfo.id@),
                ("alias"@, lm.getinfo.alias@),
                ("network"@, lm.getinfo.network@),
                ("version"@, lm.getinfo.version@),
                ("color"@, lm.getinfo.color@),
            ],
        ),
        gauge(
            "node_blockheight"@,
            lm.getinfo.blockheight,
            "Current Bitcoin blockheight on this node"@,
            Seq::empty(),
        ),
        gauge(
            "fees_collected_msat"@,
            lm.getinfo.fees_collected_msat,
            "How much have we been paid to route payments?"@,
            Seq::empty(),
        ),
        gauge("funds_output"@, output_funds, "On-chain satoshis at our disposal"@, Seq::empty()),
        gauge("funds_channel"@, channel_funds, "Satoshis in channels"@, Seq::empty()),
        gauge(
            "funds_total"@,
            (channel_funds + output_funds) as u64,
            "Total satoshis we own on this node"@,
            Seq::empty(),
        ),
    ]
}

/// Every gauge shown for a node that answered: the node's own, then those of
/// its peers.
pub open spec fn metrics_gauges(lm: LightningMetrics) -> Seq<GaugeView> {
    node_gauges(lm) + peers_gauges(lm.listpeers@)
}

/// The one gauge shown for a node that did not answer.
pub open spec fn down_gauges() -> Seq<GaugeView> {
    seq![gauge("up"@, 0, "Is the node running?"@, Seq::empty())]
}

/// Collects gauges in the order in which they are recorded.
pub struct Gatherer {
    gauges: Vec<Gauge>,
}

impl View for Gatherer {
    type V = Seq<GaugeView>;

    closed spec fn view(&self) -> Seq<GaugeView> {
        self.gauges.deep_view()
    }
}

impl Gatherer {
    /// A gatherer that holds no gauge yet.
    pub fn new() -> (g: Self)
        ensures
            g@ == Seq::<GaugeView>::empty(),
    {
        Gatherer { gauges: Vec::new() }
    }

    /// Records a gauge with labels.
    pub fn gauge_label(&mut self, name: &str, val: u64, help: &str, labels: &Vec<(&str, &str)>)
        ensures
            final(self)@ == old(self)@.push(gauge(name@, val, help@, labels.deep_view())),
    {
        let mut owned: Vec<(String, String)> = Vec::new();
        let mut i: usize = 0;
        while i < labels.len()
            invariant
                i <= labels.len(),
                owned.len() == i,
                forall|k: int| 0 <= k < i ==> (#[trigger] owned@[k]).deep_view() == labels@[k].deep_view(),
            decreases labels.len() - i,
        {
            let l = &labels[i];
            owned.push((l.0.to_owned(), l.1.to_owned()));
            i += 1;
        }
        assert(owned.deep_view() =~= labels.deep_view());
        let help = if help.is_empty() {
            None
        } else {
            Some(help.to_owned())
        };
        let g = Gauge {
            namespace: "lightning".to_owned(),
            name: name.to_owned(),
            help,
            labels: owned,
            value: val,
        };
        self.gauges.push(g);
    }

    /// Records a gauge without labels.
    pub fn gauge(&mut self, name: &str, val: u64, help: &str)
        ensures
            final(self)@ == old(self)@.push(gauge(name@, val, help@, Seq::empty())),
    {
        let labels: Vec<(&str, &str)> = Vec::new();
        assert(labels.deep_view() =~= Seq::<(Seq<char>, Seq<char>)>::empty());
        self.gauge_label(name, val, help, &labels)
    }

    /// Hands out what was recorded.
    pub fn into_gauges(self) -> (gauges: Vec<Gauge>)
        ensures
            gauges.deep_view() == self@,
    {
        self.gauges
    }
}

/// Records the gauges of one channel held with `peer`.
pub fn collect_channel(g: &mut Gatherer, peer: &str, chan: &Channel)
    ensures
        final(g)@ == old(g)@ + channel_gauges(peer@, *chan),
{
    let scid: &str = match &chan.short_channel_id {
        Some(s) => s.as_str(),
        None => "pending",
    };
    let labels: Vec<(&str, &str)> = vec![("id", peer), ("scid", scid)];
    assert(labels.deep_view() =~= channel_labels(peer@, *chan));
    g.gauge_label(
        "channel_balance",
        chan.to_us_msat,
        "How many funds are at our disposal?",
        &labels,
    );
    g.gauge_label(
        "channel_spendable",
        chan.spendable_msat,
        "How much can we currently send over this channel?",
        &labels,
    );
    g.gauge_label(
        "channel_capacity",
        chan.total_msat,
        "How many funds are in this channel in total?",
        &labels,
    );
    g.gauge_label(
        "channel_htlcs",
        chan.htlcs,
        "How many HTLCs are currently active on this channel?",
        &labels,
    );

    g.gauge_label(
        "channel_in_payments_offered",
        chan.in_payments_offered,
        "How many incoming payments did we try to forward?",
        &labels,
    );
    g.gauge_label(
        "channel_in_payments_fulfilled",
        chan.in_payments_fulfilled,
        "How many incoming payments did we succeed to forward?",
        &labels,
    );
    g.gauge_label(
        "channel_in_msatoshi_offered",
        chan.in_offered_msat,
        "How many incoming msats did we try to forward?",
        &labels,
    );
    g.gauge_label(
        "channel_in_msatoshi_fulfilled",
        chan.in_fulfilled_msat,
        "How many incoming msats did we succeed to forward?",
        &labels,
    );

    g.gauge_label(
        "channel_out_payments_offered",
        chan.out_payments_offered,
        "How many outgoing payments did we try to forward?",
        &labels,
    );
    g.gauge_label(
        "channel_out_payments_fulfilled",
        chan.out_payments_fulfilled,
        "How many outgoing payments did we succeed to forward?",
        &labels,
    );
    g.gauge_label(
        "channel_out_msatoshi_offered",
        chan.out_offered_msat,
        "How many outgoing msats did we try to forward?",
        &labels,
    );
    g.gauge_label(
        "channel_out_msatoshi_fulfilled",
        chan.out_fulfilled_msat,
        "How many outgoing msats did we succeed to forward?",
        &labels,
    );
}

/// Records the gauges of one peer and of its channels.
fn collect_peer(g: &mut Gatherer, peer: &Peer)
    ensures
        final(g)@ == old(g)@ + peer_gauges(*peer),
{
    let id: Vec<(&str, &str)> = vec![("id", peer.id.as_str())];
    assert(id.deep_view() =~= seq![("id"@, peer.id@)]);
    g.gauge_label(
        "peer_channels",
        peer.channels.len() as u64,
        "The number of channels with the peer",
        &id,
    );
    g.gauge_label(
        "peer_connected",
        if peer.connected {
            1
        } else {
            0
        },
        "Is the peer currently connected?",
        &id,
    );
    let ghost head = g@;
    let mut j: usize = 0;
    while j < peer.channels.len()
        invariant
            j <= peer.channels.len(),
            g@ == head + channels_gauges(peer.id@, peer.channels@.take(j as int)),
        decreases peer.channels.len() - j,
    {
        assert(peer.channels@.take(j + 1).drop_last() =~= peer.channels@.take(j as int));
        collect_channel(g, peer.id.as_str(), &peer.channels[j]);
        j += 1;
    }
    assert(peer.channels@.take(j as int) =~= peer.channels@);
}

/// A part of the outputs holds no more than all of them.
proof fn lemma_outputs_msat_grows(outputs: Seq<ListFundsOutput>, n: int)
    requires
        0 <= n <= outputs.len(),
    ensures
        outputs_msat(outputs.take(n)) <= outputs_msat(outputs),
    decreases outputs.len(),
{
    if n < outputs.len() {
        assert(outputs.drop_last().take(n) =~= outputs.take(n));
        lemma_outputs_msat_grows(outputs.drop_last(), n);
    } else {
        assert(outputs.take(n) =~= outputs);
    }
}

/// A part of the channels holds no more than all of them.
proof fn lemma_channels_msat_grows(channels: Seq<ListFundsChannel>, n: int)
    requires
        0 <= n <= channels.len(),
    ensures
        channels_msat(channels.take(n)) <= channels_msat(channels),
    decreases channels.len(),
{
    if n < channels.len() {
        assert(channels.drop_last().take(n) =~= channels.take(n));
        lemma_channels_msat_grows(channels.drop_last(), n);
    } else {
        assert(channels.take(n) =~= channels);
    }
}

/// Adds up the on-chain outputs, or finds that the total does not fit.
fn total_outputs_msat(outputs: &Vec<ListFundsOutput>) -> (total: Option<u64>)
    ensures
        match total {
            Some(t) => t == outputs_msat(outputs@),
            None => outputs_msat(outputs@) > u64::MAX,
        },
{
    let mut total: u64 = 0;
    let mut i: usize = 0;
    while i < outputs.len()
        invariant
            i <= outputs.len(),
            total == outputs_msat(outputs@.take(i as int)),
        decreases outputs.len() - i,
    {
        assert(outputs@.take(i + 1).drop_last() =~= outputs@.take(i as int));
        match total.checked_add(outputs[i].amount_msat) {
            Some(t) => {
                total = t;
            },
            None => {
                proof {
                    lemma_outputs_msat_grows(outputs@, i + 1);
                }
                return None;
            },
        }
        i += 1;
    }
    assert(outputs@.take(i as int) =~= outputs@);
    Some(total)
}

/// Adds up the node's share of its channels, or finds that the total does not
/// fit.
fn total_channels_msat(channels: &Vec<ListFundsChannel>) -> (total: Option<u64>)
    ensures
        match total {
            Some(t) => t == channels_msat(channels@),
            None => channels_msat(channels@) > u64::MAX,
        },
{
    let mut total: u64 = 0;
    let mut i: usize = 0;
    while i < channels.len()
        invariant
            i <= channels.len(),
            total == channels_msat(channels@.take(i as int)),
        decreases channels.len() - i,
    {
        assert(channels@.take(i + 1).drop_last() =~= channels@.take(i as int));
        match total.checked_add(channels[i].our_amount_msat) {
            Some(t) => {
                total = t;
            },
            None => {
                proof {
                    lemma_channels_msat_grows(channels@, i + 1);
                }
                return None;
            },
        }
        i += 1;
    }
    assert(channels@.take(i as int) =~= channels@);
    Some(total)
}

/// Tells whether the funds of `lm` can be summed: [`prometheus_format`] asks
/// for it.
pub fn funds_in_range(lm: &LightningMetrics) -> (fit: bool)
    ensures
        fit == funds_fit(*lm),
{
    total_outputs_msat(&lm.listfunds.outputs).is_some() && total_channels_msat(
        &lm.listfunds.channels,
    ).is_some()
}

/// The gauges for a node that answered the poll.
pub fn prometheus_format(lm: LightningMetrics) -> (gauges: Vec<Gauge>)
    requires
        funds_fit(lm),
    ensures
        gauges.deep_view() == metrics_gauges(lm),
{
    let mut g = Gatherer::new();
    g.gauge("up", 1, "Is the node running?");

    let info: Vec<(&str, &str)> = vec![
        ("id", lm.getinfo.id.as_str()),
        ("alias", lm.getinfo.alias.as_str()),
        ("network", lm.getinfo.network.as_str()),
        ("version", lm.getinfo.version.as_str()),
        ("color", lm.getinfo.color.as_str()),
    ];
    assert(info.deep_view() =~= seq![
        ("id"@, lm.getinfo.id@),
        ("alias"@, lm.getinfo.alias@),
        ("network"@, lm.getinfo.network@),
        ("version"@, lm.getinfo.version@),
        ("color"@, lm.getinfo.color@),
    ]);
    g.gauge_label("node_info", 1, "Static node information", &info);
    g.gauge(
        "node_blockheight",
        lm.getinfo.blockheight,
        "Current Bitcoin blockheight on this node",
    );
    g.gauge(
        "fees_collected_msat",
        lm.getinfo.fees_collected_msat,
        "How much have we been paid to route payments?",
    );

    let output_funds = total_outputs_msat(&lm.listfunds.outputs).unwrap() / 1000;
    g.gauge("funds_output", output_funds, "On-chain satoshis at our disposal");

    let channel_funds = total_channels_msat(&lm.listfunds.channels).unwrap() / 1000;
    g.gauge("funds_channel", channel_funds, "Satoshis in channels");

    g.gauge("funds_total", channel_funds + output_funds, "Total satoshis we own on this node");

    let mut i: usize = 0;
    while i < lm.listpeers.len()
        invariant
            i <= lm.listpeers.len(),
            g@ == node_gauges(lm) + peers_gauges(lm.listpeers@.take(i as int)),
        decreases lm.listpeers.len() - i,
    {
        assert(lm.listpeers@.take(i + 1).drop_last() =~= lm.listpeers@.take(i as int));
        collect_peer(&mut g, &lm.listpeers[i]);
        i += 1;
    }
    assert(lm.listpeers@.take(i as int) =~= lm.listpeers@);
    g.into_gauges()
}

/// The gauges for a node that did not answer the poll.
pub fn prometheus_format_down() -> (gauges: Vec<Gauge>)
    ensures
        gauges.deep_view() == down_gauges(),
{
    let mut g = Gatherer::new();
    g.gauge("up", 0, "Is the node running?");
    g.into_gauges()
}

} // verus!
