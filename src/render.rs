//! What the renderer shows for each event: a highlighted headline and a table of
//! labelled values. Events outside the IBC vocabulary are refused.
use vstd::prelude::*;
use vstd::string::*;
use crate::event::{is_ibc_kind, ConnectionDetails, Event, EventKind};

verus! {

/// The decimal digit for a value below ten.
pub open spec fn digit_char(d: nat) -> char {
    (d + '0' as nat) as char
}

/// The decimal writing of a number, without leading zeros.
pub open spec fn decimal(n: nat) -> Seq<char>
    decreases n,
{
    if n < 10 {
        seq![digit_char(n)]
    } else {
        decimal(n / 10).push(digit_char(n % 10))
    }
}

/// Relies on u32's `to_string`, through its `Display`: the decimal writing.
#[verifier::external_body]
fn amount_text(n: u32) -> (r: String)
    ensures
        r@ == decimal(n as nat),
{
    n.to_string()
}

/// One labelled value of a table.
#[derive(Debug, Clone)]
pub struct Row {
    pub label: String,
    pub value: String,
}

/// What the renderer shows for one event.
#[derive(Debug, Clone)]
pub struct Rendering {
    pub headline: String,
    pub rows: Vec<Row>,
}

/// Why the renderer stopped.
#[derive(Debug, Clone, Copy, PartialEq, Eq, Structural)]
pub enum RenderError {
    /// An event outside the IBC vocabulary reached the renderer.
    NonIbcEvent,
}

/// The headline of a milestone that carries one identifier.
pub open spec fn id_line(what: Seq<char>, label: Seq<char>, id: Seq<char>) -> Seq<char> {
    what + " ["@ + label + " = "@ + id + "]"@
}

/// The headline shown for an event.
pub open spec fn headline_of(e: Event) -> Seq<char> {
    match e {
        Event::TokensSent { .. } => "Tokens sent!"@,
        Event::TokensReceived { .. } => "Tokens received!"@,
        Event::SignerUpdated { .. } => "Signer updated!"@,
        Event::CreatedSoloMachineClient { client_id } => id_line(
            "Created solo machine client on IBC enabled chain"@,
            "Client ID"@,
            client_id@,
        ),
        Event::CreatedTendermintClient { client_id } => id_line(
            "Created tendermint client on solo machine"@,
            "Client ID"@,
            client_id@,
        ),
        Event::InitializedConnectionOnTendermint { connection_id } => id_line(
            "Initialized connection on IBC enabled chain"@,
            "Connection ID"@,
            connection_id@,
        ),
        Event::InitializedConnectionOnSoloMachine { connection_id } => id_line(
            "Initialized connection on solo machine"@,
            "Connection ID"@,
            connection_id@,
        ),
        Event::ConfirmedConnectionOnTendermint { connection_id } => id_line(
            "Confirmed connection on IBC enabled chain"@,
            "Connection ID"@,
            connection_id@,
        ),
        Event::ConfirmedConnectionOnSoloMachine { connection_id } => id_line(
            "Confirmed connection on solo machine"@,
            "Connection ID"@,
            connection_id@,
        ),
        Event::InitializedChannelOnTendermint { channel_id } => id_line(
            "Initialized channel on IBC enabled chain"@,
            "Channel ID"@,
            channel_id@,
        ),
        Event::InitializedChannelOnSoloMachine { channel_id } => id_line(
            "Initialized channel on solo machine"@,
            "Channel ID"@,
            channel_id@,
        ),
        Event::ConfirmedChannelOnTendermint { channel_id } => id_line(
            "Confirmed channel on IBC enabled chain"@,
            "Channel ID"@,
            channel_id@,
        ),
        Event::ConfirmedChannelOnSoloMachine { channel_id } => id_line(
            "Confirmed channel on solo machine"@,
            "Channel ID"@,
            channel_id@,
        ),
        Event::ConnectionEstablished { .. } => "Connection established!"@,
        _ => Seq::empty(),
    }
}

/// The table shown for an event, as (label, value) pairs.
pub open spec fn rows_of(e: Event) -> Seq<(Seq<char>, Seq<char>)> {
    match e {
        Event::TokensSent { chain_id, from_address, to_address, amount, denom }
        | Event::TokensReceived { chain_id, from_address, to_address, amount, denom } => seq![
            ("Chain ID"@, chain_id@),
            ("From"@, from_address@),
            ("To"@, to_address@),
            ("Amount"@, decimal(amount as nat)),
            ("Denom"@, denom@),
        ],
        Event::SignerUpdated { chain_id, .. } => seq![("Chain ID"@, chain_id@)],
        Event::ConnectionEstablished { chain_id, connection_details: d } => seq![
            ("Chain ID"@, chain_id@),
            ("Solo machine client ID"@, d.solo_machine_client_id@),
            ("Tendermint client ID"@, d.tendermint_client_id@),
            ("Solo machine connection ID"@, d.solo_machine_connection_id@),
            ("Tendermint connection ID"@, d.tendermint_connection_id@),
            ("Solo machine channel ID"@, d.solo_machine_channel_id@),
            ("Tendermint channel ID"@, d.tendermint_channel_id@),
        ],
        _ => Seq::empty(),
    }
}

impl Rendering {
    /// The table as (label, value) pairs.
    pub open spec fn table(&self) -> Seq<(Seq<char>, Seq<char>)> {
        self.rows@.map_values(|r: Row| (r.label@, r.value@))
    }
}

/// Makes a row from a label and a value.
fn row(label: &str, value: String) -> (r: Row)
    ensures
        r.label@ == label@,
        r.value@ == value@,
{
    Row { label: String::from_str(label), value }
}

/// Makes the headline of a milestone that carries one identifier.
fn make_id_line(what: &str, label: &str, id: &str) -> (r: String)
    ensures
        r@ == id_line(what@, label@, id@),
{
    let mut s = String::from_str(what);
    s.append(" [");
    s.append(label);
    s.append(" = ");
    s.append(id);
    s.append("]");
    s
}

/// The rows of a completed handshake.
fn connection_rows(chain_id: &str, d: &ConnectionDetails) -> (r: Vec<Row>)
    ensures
        r@.map_values(|r: Row| (r.label@, r.value@)) == seq![
            ("Chain ID"@, chain_id@),
            ("Solo machine client ID"@, d.solo_machine_client_id@),
            ("Tendermint client ID"@, d.tendermint_client_id@),
            ("Solo machine connection ID"@, d.solo_machine_connection_id@),
            ("Tendermint connection ID"@, d.tendermint_connection_id@),
            ("Solo machine channel ID"@, d.solo_machine_channel_id@),
            ("Tendermint channel ID"@, d.tendermint_channel_id@),
        ],
{
    let mut rows: Vec<Row> = Vec::new();
    rows.push(row("Chain ID", String::from_str(chain_id)));
    rows.push(row("Solo machine client ID", d.solo_machine_client_id.to_text()));
    rows.push(row("Tendermint client ID", d.tendermint_client_id.to_text()));
    rows.push(row("Solo machine connection ID", d.solo_machine_connection_id.to_text()));
    rows.push(row("Tendermint connection ID", d.tendermint_connection_id.to_text()));
    rows.push(row("Solo machine channel ID", d.solo_machine_channel_id.to_text()));
    rows.push(row("Tendermint channel ID", d.tendermint_channel_id.to_text()));
    assert(rows@.map_values(|r: Row| (r.label@, r.value@)) =~= seq![
        ("Chain ID"@, chain_id@),
        ("Solo machine client ID"@, d.solo_machine_client_id@),
        ("Tendermint client ID"@, d.tendermint_client_id@),
        ("Solo machine connection ID"@, d.solo_machine_connection_id@),
        ("Tendermint connection ID"@, d.tendermint_connection_id@),
        ("Solo machine channel ID"@, d.solo_machine_channel_id@),
        ("Tendermint channel ID"@, d.tendermint_channel_id@),
    ]);
    rows
}

/// The rows of a transfer.
fn transfer_rows(chain_id: &str, from: &String, to: &String, amount: u32, denom: &str) -> (r: Vec<
    Row,
>)
    ensures
        r@.map_values(|r: Row| (r.label@, r.value@)) == seq![
            ("Chain ID"@, chain_id@),
            ("From"@, from@),
            ("To"@, to@),
            ("Amount"@, decimal(amount as nat)),
            ("Denom"@, denom@),
        ],
{
    let mut rows: Vec<Row> = Vec::new();
    rows.push(row("Chain ID", String::from_str(chain_id)));
    rows.push(row("From", from.clone()));
    rows.push(row("To", to.clone()));
    rows.push(row("Amount", amount_text(amount)));
    rows.push(row("Denom", String::from_str(denom)));
    assert(rows@.map_values(|r: Row| (r.label@, r.value@)) =~= seq![
        ("Chain ID"@, chain_id@),
        ("From"@, from@),
        ("To"@, to@),
        ("Amount"@, decimal(amount as nat)),
        ("Denom"@, denom@),
    ]);
    rows
}

/// What the renderer shows for an event. Events outside the IBC vocabulary are
/// refused rather than skipped.
pub fn render_event(e: &Event) -> (r: Result<Rendering, RenderError>)
    ensures
        r is Err <==> !is_ibc_kind(e.kind_spec()),
        r is Err ==> r->Err_0 == RenderError::NonIbcEvent,
        r is Ok ==> r->Ok_0.headline@ == headline_of(*e) && r->Ok_0.table() == rows_of(*e),
{
    let empty: Vec<Row> = Vec::new();
    assert(empty@.map_values(|r: Row| (r.label@, r.value@)) =~= Seq::empty());
    match e {
        Event::TokensSent { chain_id, from_address, to_address, amount, denom } => Ok(Rendering {
            headline: String::from_str("Tokens sent!"),
            rows: transfer_rows(chain_id.as_str(), from_address, to_address, *amount, denom.as_str()),
        }),
        Event::TokensReceived { chain_id, from_address, to_address, amount, denom } => Ok(
            Rendering {
                headline: String::from_str("Tokens received!"),
                rows: transfer_rows(
                    chain_id.as_str(),
                    from_address,
                    to_address,
                    *amount,
                    denom.as_str(),
                ),
            },
        ),
        Event::SignerUpdated { chain_id, .. } => {
            let mut rows: Vec<Row> = Vec::new();
            rows.push(row("Chain ID", chain_id.to_text()));
            assert(rows@.map_values(|r: Row| (r.label@, r.value@)) =~= seq![
                ("Chain ID"@, chain_id@),
            ]);
            Ok(Rendering { headline: String::from_str("Signer updated!"), rows })
        },
        Event::CreatedSoloMachineClient { client_id } => Ok(Rendering {
            headline: make_id_line(
                "Created solo machine client on IBC enabled chain",
                "Client ID",
                client_id.as_str(),
            ),
            rows: empty,
        }),
        Event::CreatedTendermintClient { client_id } => Ok(Rendering {
            headline: make_id_line(
                "Created tendermint client on solo machine",
                "Client ID",
                client_id.as_str(),
            ),
            rows: empty,
        }),
        Event::InitializedConnectionOnTendermint { connection_id } => Ok(Rendering {
            headline: make_id_line(
                "Initialized connection on IBC enabled chain",
                "Connection ID",
                connection_id.as_str(),
            ),
            rows: empty,
        }),
        Event::InitializedConnectionOnSoloMachine { connection_id } => Ok(Rendering {
            headline: make_id_line(
                "Initialized connection on solo machine",
                "Connection ID",
                connection_id.as_str(),
            ),
            rows: empty,
        }),
        Event::ConfirmedConnectionOnTendermint { connection_id } => Ok(Rendering {
            headline: make_id_line(
                "Confirmed connection on IBC enabled chain",
                "Connection ID",
                connection_id.as_str(),
            ),
            rows: empty,
        }),
        Event::ConfirmedConnectionOnSoloMachine { connection_id } => Ok(Rendering {
            headline: make_id_line(
                "Confirmed connection on solo machine",
                "Connection ID",
                connection_id.as_str(),
            ),
            rows: empty,
        }),
        Event::InitializedChannelOnTendermint { channel_id } => Ok(Rendering {
            headline: make_id_line(
                "Initialized channel on IBC enabled chain",
                "Channel ID",
                channel_id.as_str(),
            ),
            rows: empty,
        }),
        Event::InitializedChannelOnSoloMachine { channel_id } => Ok(Rendering {
            headline: make_id_line(
                "Initialized channel on solo machine",
                "Channel ID",
                channel_id.as_str(),
            ),
            rows: empty,
        }),
        Event::ConfirmedChannelOnTendermint { channel_id } => Ok(Rendering {
            headline: make_id_line(
                "Confirmed channel on IBC enabled chain",
                "Channel ID",
                channel_id.as_str(),
            ),
            rows: empty,
        }),
        Event::ConfirmedChannelOnSoloMachine { channel_id } => Ok(Rendering {
            headline: make_id_line(
                "Confirmed channel on solo machine",
                "Channel ID",
                channel_id.as_str(),
            ),
            rows: empty,
        }),
        Event::ConnectionEstablished { chain_id, connection_details } => Ok(Rendering {
            headline: String::from_str("Connection established!"),
            rows: connection_rows(chain_id.as_str(), connection_details),
        }),
        _ => Err(RenderError::NonIbcEvent),
    }
}

/// What the renderer does with one receive from the event channel.
#[derive(Debug, Clone)]
pub enum RenderAction {
    /// Show this rendering and receive again.
    Show(Rendering),
    /// The stream ended: stop cleanly.
    Stop,
    /// Stop with this error.
    Fail(RenderError),
}

/// The renderer's position: still receiving, ended cleanly, or failed.
#[derive(Debug, Clone, Copy, PartialEq, Eq, Structural)]
pub enum RenderState {
    Receiving,
    Ended,
    Failed(RenderError),
}

/// The renderer's next state after receiving `received`: the kind of the next
/// event, or `None` for the end of the stream.
pub open spec fn next_state(s: RenderState, received: Option<EventKind>) -> RenderState {
    match s {
        RenderState::Receiving => match received {
            None => RenderState::Ended,
            Some(k) => if is_ibc_kind(k) {
                RenderState::Receiving
            } else {
                RenderState::Failed(RenderError::NonIbcEvent)
            },
        },
        _ => s,
    }
}

/// The renderer's state after a run of receives.
pub open spec fn run(s: RenderState, received: Seq<Option<EventKind>>) -> RenderState
    decreases received.len(),
{
    if received.len() == 0 {
        s
    } else {
        run(next_state(s, received[0]), received.drop_first())
    }
}

/// The renderer's loop, driven one receive at a time.
pub struct Renderer {
    pub state: RenderState,
}

impl Renderer {
    /// A renderer before its first receive.
    pub fn new() -> (r: Renderer)
        ensures
            r.state == RenderState::Receiving,
    {
        Renderer { state: RenderState::Receiving }
    }

    /// Handles one receive: `Some` is the next event, `None` the end of the
    /// stream. The end of the stream and a failure are final: once either is
    /// reached, every further receive gives `Stop` and changes nothing.
    pub fn on_receive(&mut self, received: Option<&Event>) -> (r: RenderAction)
        ensures
            final(self).state == next_state(
                old(self).state,
                match received {
                    Some(e) => Some(e.kind_spec()),
                    None => None,
                },
            ),
            old(self).state != RenderState::Receiving ==> r is Stop,
            old(self).state == RenderState::Receiving ==> match received {
                None => r is Stop,
                Some(e) => if is_ibc_kind(e.kind_spec()) {
                    &&& r matches RenderAction::Show(x)
                    &&& x.headline@ == headline_of(*e)
                    &&& x.table() == rows_of(*e)
                } else {
                    r == RenderAction::Fail(RenderError::NonIbcEvent)
                },
            },
    {
        if self.state != RenderState::Receiving {
            return RenderAction::Stop;
        }
        match received {
            None => {
                self.state = RenderState::Ended;
                RenderAction::Stop
            },
            Some(e) => match render_event(e) {
                Ok(x) => RenderAction::Show(x),
                Err(err) => {
                    self.state = RenderState::Failed(err);
                    RenderAction::Fail(err)
                },
            },
        }
    }
}

/// The end of the stream is final: once the renderer has seen it, no run of
/// further receives moves it out of the ended state.
pub proof fn lemma_end_of_stream_is_terminal(received: Seq<Option<EventKind>>)
    ensures
        run(RenderState::Ended, received) == RenderState::Ended,
    decreases received.len(),
{
    if received.len() > 0 {
        lemma_end_of_stream_is_terminal(received.drop_first());
    }
}

/// A renderer that is still receiving ends cleanly at the end of the stream,
/// whatever follows it.
pub proof fn lemma_receiving_then_end(received: Seq<Option<EventKind>>)
    ensures
        run(RenderState::Receiving, seq![None].add(received)) == RenderState::Ended,
{
    let all = seq![None].add(received);
    assert(all.drop_first() =~= received);
    lemma_end_of_stream_is_terminal(received);
}

} // verus!
