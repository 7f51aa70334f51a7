//! Firewall plans for the NAT network: the iptables operations that set up
//! and tear down the `filter`, `mangle` and `nat` chains of a bridge, each
//! with the error it reports when it fails, and the run of such a plan.
use vstd::prelude::*;
use crate::ip::{network_text, IpNetwork};
use crate::text::{concat2, concat3, concat4, concat5, owned};

verus! {

/// Errors of the firewall handlers.
#[derive(Debug, Clone, PartialEq, Eq)]
pub enum IpTableHandlerError {
    HandlerError(String),
    RuleAdd { chain_name: String, table_name: String, message: String },
    ChainAdd { chain_name: String, table_name: String, message: String },
    ChainRemove { chain_name: String, table_name: String, message: String },
}

/// The kind of failure a step reports.
#[derive(Clone, Copy, Debug, PartialEq, Eq, Structural)]
pub enum FailureKind {
    Handler,
    RuleAdd,
    ChainAdd,
    ChainRemove,
}

/// The value of an `IpTableHandlerError`.
pub enum IpTableHandlerErrorView {
    HandlerError(Seq<char>),
    Failed { kind: FailureKind, chain_name: Seq<char>, table_name: Seq<char>, message: Seq<char> },
}

impl View for IpTableHandlerError {
    type V = IpTableHandlerErrorView;

    open spec fn view(&self) -> IpTableHandlerErrorView {
        match self {
            IpTableHandlerError::HandlerError(m) => IpTableHandlerErrorView::HandlerError(m@),
            IpTableHandlerError::RuleAdd { chain_name, table_name, message } => IpTableHandlerErrorView::Failed {
                kind: FailureKind::RuleAdd,
                chain_name: chain_name@,
                table_name: table_name@,
                message: message@,
            },
            IpTableHandlerError::ChainAdd { chain_name, table_name, message } => IpTableHandlerErrorView::Failed {
                kind: FailureKind::ChainAdd,
                chain_name: chain_name@,
                table_name: table_name@,
                message: message@,
            },
            IpTableHandlerError::ChainRemove { chain_name, table_name, message } => IpTableHandlerErrorView::Failed {
                kind: FailureKind::ChainRemove,
                chain_name: chain_name@,
                table_name: table_name@,
                message: message@,
            },
        }
    }
}

/// One iptables operation, with the arguments the `iptables` crate takes.
/// `OpenHandler` makes the handle (IPv4 or IPv6 tables) the following steps
/// use; `NewChainIfMissing` asks whether the chain exists and creates it if not.
#[derive(Debug, Clone, PartialEq, Eq)]
pub enum IptablesOp {
    OpenHandler { ipv6: bool },
    NewChain { table: String, chain: String },
    NewChainIfMissing { table: String, chain: String },
    AppendReplace { table: String, chain: String, rule: String },
    FlushChain { table: String, chain: String },
    Delete { table: String, chain: String, rule: String },
    DeleteChain { table: String, chain: String },
}

/// The value of an `IptablesOp`.
pub enum OpView {
    OpenHandler { ipv6: bool },
    NewChain { table: Seq<char>, chain: Seq<char> },
    NewChainIfMissing { table: Seq<char>, chain: Seq<char> },
    AppendReplace { table: Seq<char>, chain: Seq<char>, rule: Seq<char> },
    FlushChain { table: Seq<char>, chain: Seq<char> },
    Delete { table: Seq<char>, chain: Seq<char>, rule: Seq<char> },
    DeleteChain { table: Seq<char>, chain: Seq<char> },
}

impl View for IptablesOp {
    type V = OpView;

    open spec fn view(&self) -> OpView {
        match self {
            IptablesOp::OpenHandler { ipv6 } => OpView::OpenHandler { ipv6: *ipv6 },
            IptablesOp::NewChain { table, chain } => OpView::NewChain { table: table@, chain: chain@ },
            IptablesOp::NewChainIfMissing { table, chain } => OpView::NewChainIfMissing {
                table: table@,
                chain: chain@,
            },
            IptablesOp::AppendReplace { table, chain, rule } => OpView::AppendReplace {
                table: table@,
                chain: chain@,
                rule: rule@,
            },
            IptablesOp::FlushChain { table, chain } => OpView::FlushChain { table: table@, chain: chain@ },
            IptablesOp::Delete { table, chain, rule } => OpView::Delete {
                table: table@,
                chain: chain@,
                rule: rule@,
            },
            IptablesOp::DeleteChain { table, chain } => OpView::DeleteChain { table: table@, chain: chain@ },
        }
    }
}

/// An operation of a plan and what its failure is reported as.
#[derive(Debug)]
pub struct IptablesStep {
    pub op: IptablesOp,
    pub failure: FailureKind,
    pub failure_chain: String,
    pub failure_table: String,
}

/// The value of an `IptablesStep`.
pub struct StepView {
    pub op: OpView,
    pub failure: FailureKind,
    pub failure_chain: Seq<char>,
    pub failure_table: Seq<char>,
}

impl View for IptablesStep {
    type V = StepView;

    open spec fn view(&self) -> StepView {
        StepView {
            op: self.op@,
            failure: self.failure,
            failure_chain: self.failure_chain@,
            failure_table: self.failure_table@,
        }
    }
}

/// The value of a plan.
pub open spec fn plan_view(plan: Seq<IptablesStep>) -> Seq<StepView> {
    plan.map_values(|s: IptablesStep| s@)
}

/// The error a step reports when its operation fails with `message`.
pub open spec fn step_error(step: StepView, message: Seq<char>) -> IpTableHandlerErrorView {
    if step.failure == FailureKind::Handler {
        IpTableHandlerErrorView::HandlerError(message)
    } else {
        IpTableHandlerErrorView::Failed {
            kind: step.failure,
            chain_name: step.failure_chain,
            table_name: step.failure_table,
            message,
        }
    }
}

impl IptablesStep {
    /// The error this step reports when its operation fails with `message`.
    pub fn failure_error(&self, message: String) -> (r: IpTableHandlerError)
        ensures
            r@ == step_error(self@, message@),
    {
        let chain_name = self.failure_chain.clone();
        let table_name = self.failure_table.clone();
        match self.failure {
            FailureKind::Handler => IpTableHandlerError::HandlerError(message),
            FailureKind::RuleAdd => IpTableHandlerError::RuleAdd { chain_name, table_name, message },
            FailureKind::ChainAdd => IpTableHandlerError::ChainAdd { chain_name, table_name, message },
            FailureKind::ChainRemove => IpTableHandlerError::ChainRemove {
                chain_name,
                table_name,
                message,
            },
        }
    }
}

/// The step of operation `op` whose failure is reported as `failure` on
/// `chain` of `table`.
pub open spec fn sv(op: OpView, failure: FailureKind, chain: Seq<char>, table: Seq<char>) -> StepView {
    StepView { op, failure, failure_chain: chain, failure_table: table }
}

fn mk(op: IptablesOp, failure: FailureKind, chain: String, table: &str) -> (s: IptablesStep)
    ensures
        s@ == sv(op@, failure, chain@, table@),
{
    IptablesStep { op, failure, failure_chain: chain, failure_table: owned(table) }
}

fn new_chain(table: &str, chain: &String) -> (o: IptablesOp)
    ensures
        o@ == (OpView::NewChain { table: table@, chain: chain@ }),
{
    IptablesOp::NewChain { table: owned(table), chain: chain.clone() }
}

fn new_chain_if_missing(table: &str, chain: &String) -> (o: IptablesOp)
    ensures
        o@ == (OpView::NewChainIfMissing { table: table@, chain: chain@ }),
{
    IptablesOp::NewChainIfMissing { table: owned(table), chain: chain.clone() }
}

fn append_replace(table: &str, chain: &String, rule: String) -> (o: IptablesOp)
    ensures
        o@ == (OpView::AppendReplace { table: table@, chain: chain@, rule: rule@ }),
{
    IptablesOp::AppendReplace { table: owned(table), chain: chain.clone(), rule }
}

fn flush_chain(table: &str, chain: &String) -> (o: IptablesOp)
    ensures
        o@ == (OpView::FlushChain { table: table@, chain: chain@ }),
{
    IptablesOp::FlushChain { table: owned(table), chain: chain.clone() }
}

fn delete_rule(table: &str, chain: &String, rule: String) -> (o: IptablesOp)
    ensures
        o@ == (OpView::Delete { table: table@, chain: chain@, rule: rule@ }),
{
    IptablesOp::Delete { table: owned(table), chain: chain.clone(), rule }
}

fn delete_chain(table: &str, chain: &String) -> (o: IptablesOp)
    ensures
        o@ == (OpView::DeleteChain { table: table@, chain: chain@ }),
{
    IptablesOp::DeleteChain { table: owned(table), chain: chain.clone() }
}

/// The rule that jumps to `chain`.
pub open spec fn jump_rule(chain: Seq<char>) -> Seq<char> {
    "-j "@ + chain
}

fn jump(chain: &String) -> (r: String)
    ensures
        r@ == jump_rule(chain@),
{
    concat2("-j ", chain.as_str())
}

/// Whether a `NewChainIfMissing` step creates its chain, given whether the
/// chain exists: only a missing chain is created.
pub fn needs_new_chain(chain_exists: bool) -> (r: bool)
    ensures
        r == !chain_exists,
{
    !chain_exists
}

/// The plans a firewall handler gives for setting up and tearing down its rules.
pub trait IpTableHandler {
    /// The operations that create the handler's chains and insert its rules.
    fn insert_ip_table_rules(&self) -> Vec<IptablesStep>;

    /// The operations that remove the handler's rules and chains.
    fn remove_ip_table_rules(&self) -> Vec<IptablesStep>;
}

// ---------------------------------------------------------------------------
// filter table

/// `filter`
pub open spec fn filter_table() -> Seq<char> {
    "filter"@
}

/// Chains of the `filter` table for interface `if_name`:
/// forward-in, forward-out, forward-cross, input and output.
pub open spec fn filter_chain(if_name: Seq<char>, postfix: Seq<char>) -> Seq<char> {
    if_name + "_"@ + postfix
}

/// Steps that create the `filter` chains and hook them into the built-in chains.
pub open spec fn filter_create_chains_plan(if_name: Seq<char>) -> Seq<StepView> {
    let t = filter_table();
    let fwi = filter_chain(if_name, "FWI"@);
    let fwo = filter_chain(if_name, "FWO"@);
    let fwx = filter_chain(if_name, "FWX"@);
    let inp = filter_chain(if_name, "INP"@);
    let out = filter_chain(if_name, "OUT"@);
    seq![
        sv(OpView::NewChain { table: t, chain: fwi }, FailureKind::ChainAdd, fwi, t),
        sv(OpView::NewChain { table: t, chain: fwo }, FailureKind::ChainAdd, fwo, t),
        sv(OpView::NewChain { table: t, chain: fwx }, FailureKind::ChainAdd, fwx, t),
        sv(OpView::NewChain { table: t, chain: inp }, FailureKind::ChainAdd, inp, t),
        sv(OpView::NewChain { table: t, chain: out }, FailureKind::ChainAdd, out, t),
        sv(OpView::AppendReplace { table: t, chain: "INPUT"@, rule: jump_rule(inp) }, FailureKind::ChainAdd, "INPUT"@, t),
        sv(OpView::AppendReplace { table: t, chain: "OUTPUT"@, rule: jump_rule(out) }, FailureKind::ChainAdd, "OUTPUT"@, t),
        sv(OpView::AppendReplace { table: t, chain: "FORWARD"@, rule: jump_rule(fwi) }, FailureKind::ChainAdd, "FORWARD"@, t),
        sv(OpView::AppendReplace { table: t, chain: "FORWARD"@, rule: jump_rule(fwo) }, FailureKind::ChainAdd, "FORWARD"@, t),
        sv(OpView::AppendReplace { table: t, chain: "FORWARD"@, rule: jump_rule(fwx) }, FailureKind::ChainAdd, "FORWARD"@, t),
    ]
}

/// A rule appended to a `filter` chain, reported as `RuleAdd` on that chain.
pub open spec fn filter_rule(chain: Seq<char>, rule: Seq<char>) -> StepView {
    sv(
        OpView::AppendReplace { table: filter_table(), chain, rule },
        FailureKind::RuleAdd,
        chain,
        filter_table(),
    )
}

/// Steps that fill the `filter` chains: traffic of the bridge's network is
/// forwarded, DNS and DHCP to and from the bridge are accepted.
pub open spec fn filter_rules_plan(if_name: Seq<char>, net: Seq<char>) -> Seq<StepView> {
    let fwi = filter_chain(if_name, "FWI"@);
    let fwo = filter_chain(if_name, "FWO"@);
    let fwx = filter_chain(if_name, "FWX"@);
    let inp = filter_chain(if_name, "INP"@);
    let out = filter_chain(if_name, "OUT"@);
    seq![
        filter_rule(fwi, "-d "@ + net + " -o "@ + if_name + " -m conntrack --ctstate RELATED,ESTABLISHED -j ACCEPT"@),
        filter_rule(fwi, "-o "@ + if_name + " -j REJECT --reject-with icmp-port-unreachable"@),
        filter_rule(fwo, "-s "@ + net + " -i "@ + if_name + " -j ACCEPT"@),
        filter_rule(fwo, "-i "@ + if_name + " -j REJECT --reject-with icmp-port-unreachable"@),
        filter_rule(fwx, "-i "@ + if_name + " -o "@ + if_name + " -j ACCEPT"@),
        filter_rule(inp, "-i "@ + if_name + " -p udp -m udp --dport 53 -j ACCEPT"@),
        filter_rule(inp, "-i "@ + if_name + " -p tcp -m tcp --dport 53 -j ACCEPT"@),
        filter_rule(inp, "-i "@ + if_name + " -p udp -m udp --dport 67 -j ACCEPT"@),
        filter_rule(inp, "-i "@ + if_name + " -p tcp -m tcp --dport 67 -j ACCEPT"@),
        filter_rule(out, "-o "@ + if_name + " -p udp -m udp --dport 53 -j ACCEPT"@),
        filter_rule(out, "-o "@ + if_name + " -p tcp -m tcp --dport 53 -j ACCEPT"@),
        filter_rule(out, "-o "@ + if_name + " -p udp -m udp --dport 68 -j ACCEPT"@),
        filter_rule(out, "-o "@ + if_name + " -p tcp -m tcp --dport 68 -j ACCEPT"@),
    ]
}

/// The `filter` rules of bridge `n` with network `net`, each appended to
/// its chain and reported as a failure to add a rule there: traffic to the
/// network that belongs to a known connection is forwarded to the bridge and
/// anything else to it rejected; traffic from the network is forwarded from
/// the bridge and anything else from it rejected; traffic between realms is
/// forwarded; DNS (port 53) and DHCP server (port 67) requests from the bridge
/// are accepted on input; DNS (port 53) and DHCP client (port 68) traffic to
/// the bridge is accepted on output.
pub proof fn law_filter_rules(n: Seq<char>, net: Seq<char>)
    ensures
        ({
            let p = filter_rules_plan(n, net);
            &&& p.len() == 13
            &&& forall|i: int| 0 <= i < 13 ==> (#[trigger] p[i]).failure == FailureKind::RuleAdd
                && p[i].failure_table == "filter"@ && p[i].op->AppendReplace_chain == p[i].failure_chain
            &&& p[0].op == (OpView::AppendReplace { table: "filter"@, chain: n + "_"@ + "FWI"@, rule: "-d "@ + net + " -o "@ + n + " -m conntrack --ctstate RELATED,ESTABLISHED -j ACCEPT"@ })
            &&& p[1].op == (OpView::AppendReplace { table: "filter"@, chain: n + "_"@ + "FWI"@, rule: "-o "@ + n + " -j REJECT --reject-with icmp-port-unreachable"@ })
            &&& p[2].op == (OpView::AppendReplace { table: "filter"@, chain: n + "_"@ + "FWO"@, rule: "-s "@ + net + " -i "@ + n + " -j ACCEPT"@ })
            &&& p[3].op == (OpView::AppendReplace { table: "filter"@, chain: n + "_"@ + "FWO"@, rule: "-i "@ + n + " -j REJECT --reject-with icmp-port-unreachable"@ })
            &&& p[4].op == (OpView::AppendReplace { table: "filter"@, chain: n + "_"@ + "FWX"@, rule: "-i "@ + n + " -o "@ + n + " -j ACCEPT"@ })
            &&& p[5].op == (OpView::AppendReplace { table: "filter"@, chain: n + "_"@ + "INP"@, rule: "-i "@ + n + " -p udp -m udp --dport 53 -j ACCEPT"@ })
            &&& p[6].op == (OpView::AppendReplace { table: "filter"@, chain: n + "_"@ + "INP"@, rule: "-i "@ + n + " -p tcp -m tcp --dport 53 -j ACCEPT"@ })
            &&& p[7].op == (OpView::AppendReplace { table: "filter"@, chain: n + "_"@ + "INP"@, rule: "-i "@ + n + " -p udp -m udp --dport 67 -j ACCEPT"@ })
            &&& p[8].op == (OpView::AppendReplace { table: "filter"@, chain: n + "_"@ + "INP"@, rule: "-i "@ + n + " -p tcp -m tcp --dport 67 -j ACCEPT"@ })
            &&& p[9].op == (OpView::AppendReplace { table: "filter"@, chain: n + "_"@ + "OUT"@, rule: "-o "@ + n + " -p udp -m udp --dport 53 -j ACCEPT"@ })
            &&& p[10].op == (OpView::AppendReplace { table: "filter"@, chain: n + "_"@ + "OUT"@, rule: "-o "@ + n + " -p tcp -m tcp --dport 53 -j ACCEPT"@ })
            &&& p[11].op == (OpView::AppendReplace { table: "filter"@, chain: n + "_"@ + "OUT"@, rule: "-o "@ + n + " -p udp -m udp --dport 68 -j ACCEPT"@ })
            &&& p[12].op == (OpView::AppendReplace { table: "filter"@, chain: n + "_"@ + "OUT"@, rule: "-o "@ + n + " -p tcp -m tcp --dport 68 -j ACCEPT"@ })
        }),
{
}

/// Steps that empty the `filter` chains, unhook them and delete them.
pub open spec fn filter_delete_chains_plan(if_name: Seq<char>) -> Seq<StepView> {
    let t = filter_table();
    let fwi = filter_chain(if_name, "FWI"@);
    let fwo = filter_chain(if_name, "FWO"@);
    let fwx = filter_chain(if_name, "FWX"@);
    let inp = filter_chain(if_name, "INP"@);
    let out = filter_chain(if_name, "OUT"@);
    seq![
        sv(OpView::FlushChain { table: t, chain: fwi }, FailureKind::ChainRemove, fwi, t),
        sv(OpView::FlushChain { table: t, chain: fwo }, FailureKind::ChainRemove, fwo, t),
        sv(OpView::FlushChain { table: t, chain: fwx }, FailureKind::ChainRemove, fwx, t),
        sv(OpView::FlushChain { table: t, chain: inp }, FailureKind::ChainRemove, inp, t),
        sv(OpView::FlushChain { table: t, chain: out }, FailureKind::ChainRemove, out, t),
        sv(OpView::Delete { table: t, chain: "INPUT"@, rule: jump_rule(inp) }, FailureKind::ChainRemove, "INPUT"@, t),
        sv(OpView::Delete { table: t, chain: "OUTPUT"@, rule: jump_rule(out) }, FailureKind::ChainRemove, "OUTPUT"@, t),
        sv(OpView::Delete { table: t, chain: "FORWARD"@, rule: jump_rule(fwi) }, FailureKind::ChainRemove, "FORWARD"@, t),
        sv(OpView::Delete { table: t, chain: "FORWARD"@, rule: jump_rule(fwo) }, FailureKind::ChainRemove, "FORWARD"@, t),
        sv(OpView::Delete { table: t, chain: "FORWARD"@, rule: jump_rule(fwx) }, FailureKind::ChainRemove, "FORWARD"@, t),
        sv(OpView::DeleteChain { table: t, chain: fwi }, FailureKind::ChainRemove, fwi, t),
        sv(OpView::DeleteChain { table: t, chain: fwo }, FailureKind::ChainRemove, fwo, t),
        sv(OpView::DeleteChain { table: t, chain: fwx }, FailureKind::ChainRemove, fwx, t),
        sv(OpView::DeleteChain { table: t, chain: inp }, FailureKind::ChainRemove, inp, t),
        sv(OpView::DeleteChain { table: t, chain: out }, FailureKind::ChainRemove, out, t),
    ]
}

/// The `filter` chains of bridge `n` are created first, one per role
/// (forward in, forward out, forward between realms, input, output), then
/// hooked into `INPUT`, `OUTPUT` and `FORWARD` by jumps; taking them down
/// empties the five chains, removes the jumps, then deletes the chains.
pub proof fn law_filter_chains(n: Seq<char>)
    ensures
        ({
            let c = filter_create_chains_plan(n);
            let d = filter_delete_chains_plan(n);
            let t = "filter"@;
            let names = seq![n + "_"@ + "FWI"@, n + "_"@ + "FWO"@, n + "_"@ + "FWX"@, n + "_"@ + "INP"@, n + "_"@ + "OUT"@];
            let hooks = seq!["FORWARD"@, "FORWARD"@, "FORWARD"@, "INPUT"@, "OUTPUT"@];
            &&& c.len() == 10
            &&& d.len() == 15
            &&& forall|k: int| 0 <= k < 5 ==> (#[trigger] c[k]).op == (OpView::NewChain { table: t, chain: names[k] })
                && c[k].failure == FailureKind::ChainAdd
            &&& c[5].op == (OpView::AppendReplace { table: t, chain: "INPUT"@, rule: "-j "@ + names[3] })
            &&& c[6].op == (OpView::AppendReplace { table: t, chain: "OUTPUT"@, rule: "-j "@ + names[4] })
            &&& c[7].op == (OpView::AppendReplace { table: t, chain: "FORWARD"@, rule: "-j "@ + names[0] })
            &&& c[8].op == (OpView::AppendReplace { table: t, chain: "FORWARD"@, rule: "-j "@ + names[1] })
            &&& c[9].op == (OpView::AppendReplace { table: t, chain: "FORWARD"@, rule: "-j "@ + names[2] })
            &&& forall|k: int| 0 <= k < 5 ==> (#[trigger] d[k]).op == (OpView::FlushChain { table: t, chain: names[k] })
            &&& forall|k: int| 5 <= k < 10 ==> (#[trigger] d[k]).op == (OpView::Delete {
                table: t,
                chain: c[k].op->AppendReplace_chain,
                rule: c[k].op->AppendReplace_rule,
            })
            &&& forall|k: int| 10 <= k < 15 ==> (#[trigger] d[k]).op == (OpView::DeleteChain { table: t, chain: names[k - 10] })
            &&& forall|k: int| 0 <= k < 15 ==> (#[trigger] d[k]).failure == FailureKind::ChainRemove
        }),
{
    let c = filter_create_chains_plan(n);
    let d = filter_delete_chains_plan(n);
    assert(c[0].op == c[0].op && c[1].op == c[1].op && c[2].op == c[2].op && c[3].op == c[3].op && c[4].op == c[4].op);
}

/// Firewall handler of the `filter` table for a bridge.
pub struct FilterIpTableManager {
    if_name: String,
    if_ip: IpNetwork,
    fwi_chain_name: String,
    fwo_chain_name: String,
    fwx_chain_name: String,
    inp_chain_name: String,
    out_chain_name: String,
}

impl FilterIpTableManager {
    /// Interface name the handler was made for.
    pub closed spec fn spec_if_name(&self) -> Seq<char> {
        self.if_name@
    }

    /// Network the handler was made for.
    pub closed spec fn spec_if_ip(&self) -> IpNetwork {
        self.if_ip
    }

    #[verifier::type_invariant]
    spec fn wf(&self) -> bool {
        &&& self.fwi_chain_name@ == filter_chain(self.if_name@, "FWI"@)
        &&& self.fwo_chain_name@ == filter_chain(self.if_name@, "FWO"@)
        &&& self.fwx_chain_name@ == filter_chain(self.if_name@, "FWX"@)
        &&& self.inp_chain_name@ == filter_chain(self.if_name@, "INP"@)
        &&& self.out_chain_name@ == filter_chain(self.if_name@, "OUT"@)
    }

    /// A handler for interface `if_name` with network `if_ip`.
    pub fn new(if_name: String, if_ip: IpNetwork) -> (r: FilterIpTableManager)
        ensures
            r.spec_if_name() == if_name@,
            r.spec_if_ip() == if_ip,
    {
        let fwi_chain_name = concat3(if_name.as_str(), "_", "FWI");
        let fwo_chain_name = concat3(if_name.as_str(), "_", "FWO");
        let fwx_chain_name = concat3(if_name.as_str(), "_", "FWX");
        let inp_chain_name = concat3(if_name.as_str(), "_", "INP");
        let out_chain_name = concat3(if_name.as_str(), "_", "OUT");
        FilterIpTableManager {
            if_name,
            if_ip,
            fwi_chain_name,
            fwo_chain_name,
            fwx_chain_name,
            inp_chain_name,
            out_chain_name,
        }
    }

    /// Whether the handler works on IPv6 tables.
    pub fn uses_ipv6(&self) -> (r: bool)
        ensures
            r == (self.spec_if_ip()@.addr is V6),
    {
        self.if_ip.addr().is_ipv6()
    }

    /// Steps that create the chains and hook them into `INPUT`, `OUTPUT` and `FORWARD`.
    pub fn create_chains(&self) -> (r: Vec<IptablesStep>)
        ensures
            plan_view(r@) == filter_create_chains_plan(self.spec_if_name()),
    {
        proof {
            use_type_invariant(self);
        }
        let t = "filter";
        let input = owned("INPUT");
        let output = owned("OUTPUT");
        let forward = owned("FORWARD");
        let mut r: Vec<IptablesStep> = Vec::new();
        r.push(mk(new_chain(t, &self.fwi_chain_name), FailureKind::ChainAdd, self.fwi_chain_name.clone(), t));
        r.push(mk(new_chain(t, &self.fwo_chain_name), FailureKind::ChainAdd, self.fwo_chain_name.clone(), t));
        r.push(mk(new_chain(t, &self.fwx_chain_name), FailureKind::ChainAdd, self.fwx_chain_name.clone(), t));
        r.push(mk(new_chain(t, &self.inp_chain_name), FailureKind::ChainAdd, self.inp_chain_name.clone(), t));
        r.push(mk(new_chain(t, &self.out_chain_name), FailureKind::ChainAdd, self.out_chain_name.clone(), t));
        r.push(mk(append_replace(t, &input, jump(&self.inp_chain_name)), FailureKind::ChainAdd, input.clone(), t));
        r.push(mk(append_replace(t, &output, jump(&self.out_chain_name)), FailureKind::ChainAdd, output.clone(), t));
        r.push(mk(append_replace(t, &forward, jump(&self.fwi_chain_name)), FailureKind::ChainAdd, forward.clone(), t));
        r.push(mk(append_replace(t, &forward, jump(&self.fwo_chain_name)), FailureKind::ChainAdd, forward.clone(), t));
        r.push(mk(append_replace(t, &forward, jump(&self.fwx_chain_name)), FailureKind::ChainAdd, forward.clone(), t));
        proof {
            reveal_strlit("filter");
        }
        assert(plan_view(r@) =~= filter_create_chains_plan(self.spec_if_name()));
        r
    }

    /// Steps that fill the chains with the bridge's rules.
    pub fn insert_rules(&self) -> (r: Vec<IptablesStep>)
        ensures
            plan_view(r@) == filter_rules_plan(self.spec_if_name(), network_text(self.spec_if_ip()@)),
    {
        proof {
            use_type_invariant(self);
        }
        let t = "filter";
        let n = self.if_ip.to_text();
        let i = self.if_name.as_str();
        let fwi = &self.fwi_chain_name;
        let fwo = &self.fwo_chain_name;
        let fwx = &self.fwx_chain_name;
        let inp = &self.inp_chain_name;
        let out = &self.out_chain_name;
        let mut r: Vec<IptablesStep> = Vec::new();
        r.push(mk(append_replace(t, fwi, concat5("-d ", n.as_str(), " -o ", i, " -m conntrack --ctstate RELATED,ESTABLISHED -j ACCEPT")), FailureKind::RuleAdd, fwi.clone(), t));
        r.push(mk(append_replace(t, fwi, concat3("-o ", i, " -j REJECT --reject-with icmp-port-unreachable")), FailureKind::RuleAdd, fwi.clone(), t));
        r.push(mk(append_replace(t, fwo, concat5("-s ", n.as_str(), " -i ", i, " -j ACCEPT")), FailureKind::RuleAdd, fwo.clone(), t));
        r.push(mk(append_replace(t, fwo, concat3("-i ", i, " -j REJECT --reject-with icmp-port-unreachable")), FailureKind::RuleAdd, fwo.clone(), t));
        r.push(mk(append_replace(t, fwx, concat5("-i ", i, " -o ", i, " -j ACCEPT")), FailureKind::RuleAdd, fwx.clone(), t));
        r.push(mk(append_replace(t, inp, concat3("-i ", i, " -p udp -m udp --dport 53 -j ACCEPT")), FailureKind::RuleAdd, inp.clone(), t));
        r.push(mk(append_replace(t, inp, concat3("-i ", i, " -p tcp -m tcp --dport 53 -j ACCEPT")), FailureKind::RuleAdd, inp.clone(), t));
        r.push(mk(append_replace(t, inp, concat3("-i ", i, " -p udp -m udp --dport 67 -j ACCEPT")), FailureKind::RuleAdd, inp.clone(), t));
        r.push(mk(append_replace(t, inp, concat3("-i ", i, " -p tcp -m tcp --dport 67 -j ACCEPT")), FailureKind::RuleAdd, inp.clone(), t));
        r.push(mk(append_replace(t, out, concat3("-o ", i, " -p udp -m udp --dport 53 -j ACCEPT")), FailureKind::RuleAdd, out.clone(), t));
        r.push(mk(append_replace(t, out, concat3("-o ", i, " -p tcp -m tcp --dport 53 -j ACCEPT")), FailureKind::RuleAdd, out.clone(), t));
        r.push(mk(append_replace(t, out, concat3("-o ", i, " -p udp -m udp --dport 68 -j ACCEPT")), FailureKind::RuleAdd, out.clone(), t));
        r.push(mk(append_replace(t, out, concat3("-o ", i, " -p tcp -m tcp --dport 68 -j ACCEPT")), FailureKind::RuleAdd, out.clone(), t));
        assert(plan_view(r@) =~= filter_rules_plan(self.spec_if_name(), network_text(self.spec_if_ip()@)));
        r
    }

    /// Steps that empty, unhook and delete the chains.
    pub fn delete_chains(&self) -> (r: Vec<IptablesStep>)
        ensures
            plan_view(r@) == filter_delete_chains_plan(self.spec_if_name()),
    {
        proof {
            use_type_invariant(self);
        }
        let t = "filter";
        let input = owned("INPUT");
        let output = owned("OUTPUT");
        let forward = owned("FORWARD");
        let mut r: Vec<IptablesStep> = Vec::new();
        r.push(mk(flush_chain(t, &self.fwi_chain_name), FailureKind::ChainRemove, self.fwi_chain_name.clone(), t));
        r.push(mk(flush_chain(t, &self.fwo_chain_name), FailureKind::ChainRemove, self.fwo_chain_name.clone(), t));
        r.push(mk(flush_chain(t, &self.fwx_chain_name), FailureKind::ChainRemove, self.fwx_chain_name.clone(), t));
        r.push(mk(flush_chain(t, &self.inp_chain_name), FailureKind::ChainRemove, self.inp_chain_name.clone(), t));
        r.push(mk(flush_chain(t, &self.out_chain_name), FailureKind::ChainRemove, self.out_chain_name.clone(), t));
        r.push(mk(delete_rule(t, &input, jump(&self.inp_chain_name)), FailureKind::ChainRemove, input.clone(), t));
        r.push(mk(delete_rule(t, &output, jump(&self.out_chain_name)), FailureKind::ChainRemove, output.clone(), t));
        r.push(mk(delete_rule(t, &forward, jump(&self.fwi_chain_name)), FailureKind::ChainRemove, forward.clone(), t));
        r.push(mk(delete_rule(t, &forward, jump(&self.fwo_chain_name)), FailureKind::ChainRemove, forward.clone(), t));
        r.push(mk(delete_rule(t, &forward, jump(&self.fwx_chain_name)), FailureKind::ChainRemove, forward.clone(), t));
        r.push(mk(delete_chain(t, &self.fwi_chain_name), FailureKind::ChainRemove, self.fwi_chain_name.clone(), t));
        r.push(mk(delete_chain(t, &self.fwo_chain_name), FailureKind::ChainRemove, self.fwo_chain_name.clone(), t));
        r.push(mk(delete_chain(t, &self.fwx_chain_name), FailureKind::ChainRemove, self.fwx_chain_name.clone(), t));
        r.push(mk(delete_chain(t, &self.inp_chain_name), FailureKind::ChainRemove, self.inp_chain_name.clone(), t));
        r.push(mk(delete_chain(t, &self.out_chain_name), FailureKind::ChainRemove, self.out_chain_name.clone(), t));
        assert(plan_view(r@) =~= filter_delete_chains_plan(self.spec_if_name()));
        r
    }
}

impl IpTableHandler for FilterIpTableManager {
    /// Creating the chains, then filling them.
    fn insert_ip_table_rules(&self) -> (r: Vec<IptablesStep>)
        ensures
            plan_view(r@) == filter_create_chains_plan(self.spec_if_name())
                + filter_rules_plan(self.spec_if_name(), network_text(self.spec_if_ip()@)),
    {
        proof {
            use_type_invariant(self);
        }
        let mut r = self.create_chains();
        let mut rules = self.insert_rules();
        r.append(&mut rules);
        assert(plan_view(r@) =~= filter_create_chains_plan(self.spec_if_name())
            + filter_rules_plan(self.spec_if_name(), network_text(self.spec_if_ip()@)));
        r
    }

    /// Emptying, unhooking and deleting the chains.
    fn remove_ip_table_rules(&self) -> (r: Vec<IptablesStep>)
        ensures
            plan_view(r@) == filter_delete_chains_plan(self.spec_if_name()),
    {
        proof {
            use_type_invariant(self);
        }
        self.delete_chains()
    }
}

// ---------------------------------------------------------------------------
// mangle table

/// `mangle`
pub open spec fn mangle_table() -> Seq<char> {
    "mangle"@
}

/// The `mangle` chain of interface `if_name`.
pub open spec fn mangle_chain(if_name: Seq<char>) -> Seq<char> {
    if_name + "_"@ + "PRT"@
}

/// Steps that create the `mangle` chain (if missing), hook it into
/// `POSTROUTING` and fill in the DHCP checksum rule.
pub open spec fn mangle_insert_plan(if_name: Seq<char>) -> Seq<StepView> {
    let t = mangle_table();
    let c = mangle_chain(if_name);
    seq![
        sv(OpView::NewChainIfMissing { table: t, chain: c }, FailureKind::ChainAdd, c, t),
        sv(OpView::AppendReplace { table: t, chain: "POSTROUTING"@, rule: jump_rule(c) }, FailureKind::ChainAdd, c, t),
        sv(OpView::AppendReplace { table: t, chain: c, rule: "-o "@ + if_name + " -p udp -m udp --dport 68 -j CHECKSUM --checksum-fill"@ }, FailureKind::RuleAdd, c, t),
    ]
}

/// Steps that empty, unhook and delete the `mangle` chain.
pub open spec fn mangle_remove_plan(if_name: Seq<char>) -> Seq<StepView> {
    let t = mangle_table();
    let c = mangle_chain(if_name);
    seq![
        sv(OpView::FlushChain { table: t, chain: c }, FailureKind::ChainRemove, c, t),
        sv(OpView::Delete { table: t, chain: "POSTROUTING"@, rule: jump_rule(c) }, FailureKind::ChainRemove, c, t),
        sv(OpView::DeleteChain { table: t, chain: c }, FailureKind::ChainRemove, c, t),
    ]
}

/// The `mangle` chain `<n>_PRT` of bridge `n` is created when missing and
/// hooked into `POSTROUTING`; it fills in the checksum of DHCP replies
/// (UDP port 68) leaving through the bridge. Taking it down empties it,
/// unhooks it and deletes it.
pub proof fn law_mangle_rules(n: Seq<char>)
    ensures
        ({
            let p = mangle_insert_plan(n);
            let d = mangle_remove_plan(n);
            let c = n + "_"@ + "PRT"@;
            &&& p =~= seq![
                sv(OpView::NewChainIfMissing { table: "mangle"@, chain: c }, FailureKind::ChainAdd, c, "mangle"@),
                sv(OpView::AppendReplace { table: "mangle"@, chain: "POSTROUTING"@, rule: "-j "@ + c }, FailureKind::ChainAdd, c, "mangle"@),
                sv(OpView::AppendReplace { table: "mangle"@, chain: c, rule: "-o "@ + n + " -p udp -m udp --dport 68 -j CHECKSUM --checksum-fill"@ }, FailureKind::RuleAdd, c, "mangle"@),
            ]
            &&& d =~= seq![
                sv(OpView::FlushChain { table: "mangle"@, chain: c }, FailureKind::ChainRemove, c, "mangle"@),
                sv(OpView::Delete { table: "mangle"@, chain: "POSTROUTING"@, rule: "-j "@ + c }, FailureKind::ChainRemove, c, "mangle"@),
                sv(OpView::DeleteChain { table: "mangle"@, chain: c }, FailureKind::ChainRemove, c, "mangle"@),
            ]
        }),
{
}

/// Firewall handler of the `mangle` table for a bridge.
pub struct MangleTableManager {
    if_name: String,
    if_ip: IpNetwork,
    chain_name: String,
}

impl MangleTableManager {
    /// Interface name the handler was made for.
    pub closed spec fn spec_if_name(&self) -> Seq<char> {
        self.if_name@
    }

    /// Network the handler was made for.
    pub closed spec fn spec_if_ip(&self) -> IpNetwork {
        self.if_ip
    }

    #[verifier::type_invariant]
    spec fn wf(&self) -> bool {
        self.chain_name@ == mangle_chain(self.if_name@)
    }

    /// A handler for interface `if_name` with network `if_ip`.
    pub fn new(if_name: String, if_ip: IpNetwork) -> (r: MangleTableManager)
        ensures
            r.spec_if_name() == if_name@,
            r.spec_if_ip() == if_ip,
    {
        let chain_name = concat3(if_name.as_str(), "_", "PRT");
        MangleTableManager { if_name, if_ip, chain_name }
    }

    /// Whether the handler works on IPv6 tables.
    pub fn uses_ipv6(&self) -> (r: bool)
        ensures
            r == (self.spec_if_ip()@.addr is V6),
    {
        self.if_ip.addr().is_ipv6()
    }
}

impl IpTableHandler for MangleTableManager {
    /// Creating and hooking the chain, then adding the checksum rule.
    fn insert_ip_table_rules(&self) -> (r: Vec<IptablesStep>)
        ensures
            plan_view(r@) == mangle_insert_plan(self.spec_if_name()),
    {
        proof {
            use_type_invariant(self);
        }
        let t = "mangle";
        let c = &self.chain_name;
        let postrouting = owned("POSTROUTING");
        let mut r: Vec<IptablesStep> = Vec::new();
        r.push(mk(new_chain_if_missing(t, c), FailureKind::ChainAdd, c.clone(), t));
        r.push(mk(append_replace(t, &postrouting, jump(c)), FailureKind::ChainAdd, c.clone(), t));
        r.push(mk(append_replace(t, c, concat3("-o ", self.if_name.as_str(), " -p udp -m udp --dport 68 -j CHECKSUM --checksum-fill")), FailureKind::RuleAdd, c.clone(), t));
        assert(plan_view(r@) =~= mangle_insert_plan(self.spec_if_name()));
        r
    }

    /// Emptying, unhooking and deleting the chain.
    fn remove_ip_table_rules(&self) -> (r: Vec<IptablesStep>)
        ensures
            plan_view(r@) == mangle_remove_plan(self.spec_if_name()),
    {
        proof {
            use_type_invariant(self);
        }
        let t = "mangle";
        let c = &self.chain_name;
        let postrouting = owned("POSTROUTING");
        let mut r: Vec<IptablesStep> = Vec::new();
        r.push(mk(flush_chain(t, c), FailureKind::ChainRemove, c.clone(), t));
        r.push(mk(delete_rule(t, &postrouting, jump(c)), FailureKind::ChainRemove, c.clone(), t));
        r.push(mk(delete_chain(t, c), FailureKind::ChainRemove, c.clone(), t));
        assert(plan_view(r@) =~= mangle_remove_plan(self.spec_if_name()));
        r
    }
}

// ---------------------------------------------------------------------------
// nat table

/// `nat`
pub open spec fn nat_table() -> Seq<char> {
    "nat"@
}

/// The daemon's chain of the `nat` table.
pub open spec fn nat_chain() -> Seq<char> {
    "DAEMONVIRT_PRT"@
}

/// A rule appended to the `nat` chain, reported as `RuleAdd` on it.
pub open spec fn nat_rule(rule: Seq<char>) -> StepView {
    sv(
        OpView::AppendReplace { table: nat_table(), chain: nat_chain(), rule },
        FailureKind::RuleAdd,
        nat_chain(),
        nat_table(),
    )
}

/// Steps that create the `nat` chain (if missing), hook it into `POSTROUTING`
/// and masquerade traffic leaving network `net`, multicast and broadcast aside.
pub open spec fn nat_insert_plan(net: Seq<char>) -> Seq<StepView> {
    let t = nat_table();
    let c = nat_chain();
    seq![
        sv(OpView::NewChainIfMissing { table: t, chain: c }, FailureKind::ChainAdd, c, t),
        sv(OpView::AppendReplace { table: t, chain: "POSTROUTING"@, rule: jump_rule(c) }, FailureKind::ChainAdd, c, t),
        nat_rule("-s "@ + net + " -d 224.0.0.0/24 -j RETURN"@),
        nat_rule("-s "@ + net + " -d 225.255.255.255 -j RETURN"@),
        nat_rule("-s "@ + net + " ! -d "@ + net + " -p tcp -j MASQUERADE --to-ports 1024-65535"@),
        nat_rule("-s "@ + net + " ! -d "@ + net + " -p udp -j MASQUERADE --to-ports 1024-65535"@),
        nat_rule("-s "@ + net + " ! -d "@ + net + " -j MASQUERADE"@),
    ]
}

/// Steps that empty, unhook and delete the `nat` chain.
pub open spec fn nat_remove_plan() -> Seq<StepView> {
    let t = nat_table();
    let c = nat_chain();
    seq![
        sv(OpView::FlushChain { table: t, chain: c }, FailureKind::ChainRemove, c, t),
        sv(OpView::Delete { table: t, chain: "POSTROUTING"@, rule: jump_rule(c) }, FailureKind::ChainRemove, c, t),
        sv(OpView::DeleteChain { table: t, chain: c }, FailureKind::ChainRemove, c, t),
    ]
}

/// The `nat` chain `DAEMONVIRT_PRT` is created when missing and hooked into
/// `POSTROUTING`; traffic from network `net` to multicast 224.0.0.0/24 and to
/// 225.255.255.255 is left alone, and traffic from `net` leaving it is
/// masqueraded: TCP and UDP onto ports 1024-65535, anything else as it is.
/// Taking it down empties it, unhooks it and deletes it.
pub proof fn law_nat_rules(net: Seq<char>)
    ensures
        ({
            let p = nat_insert_plan(net);
            let d = nat_remove_plan();
            let c = "DAEMONVIRT_PRT"@;
            let t = "nat"@;
            &&& p.len() == 7
            &&& p[0].op == (OpView::NewChainIfMissing { table: t, chain: c })
            &&& p[1].op == (OpView::AppendReplace { table: t, chain: "POSTROUTING"@, rule: "-j "@ + c })
            &&& p[2].op == (OpView::AppendReplace { table: t, chain: c, rule: "-s "@ + net + " -d 224.0.0.0/24 -j RETURN"@ })
            &&& p[3].op == (OpView::AppendReplace { table: t, chain: c, rule: "-s "@ + net + " -d 225.255.255.255 -j RETURN"@ })
            &&& p[4].op == (OpView::AppendReplace {
                table: t,
                chain: c,
                rule: "-s "@ + net + " ! -d "@ + net + " -p tcp -j MASQUERADE --to-ports 1024-65535"@,
            })
            &&& p[5].op == (OpView::AppendReplace {
                table: t,
                chain: c,
                rule: "-s "@ + net + " ! -d "@ + net + " -p udp -j MASQUERADE --to-ports 1024-65535"@,
            })
            &&& p[6].op == (OpView::AppendReplace { table: t, chain: c, rule: "-s "@ + net + " ! -d "@ + net + " -j MASQUERADE"@ })
            &&& p[0].failure == FailureKind::ChainAdd && p[1].failure == FailureKind::ChainAdd
            &&& forall|k: int| 2 <= k < 7 ==> (#[trigger] p[k]).failure == FailureKind::RuleAdd
            &&& forall|k: int| 0 <= k < 7 ==> (#[trigger] p[k]).failure_chain == c && p[k].failure_table == t
            &&& d.len() == 3
            &&& d[0].op == (OpView::FlushChain { table: t, chain: c })
            &&& d[1].op == (OpView::Delete { table: t, chain: "POSTROUTING"@, rule: "-j "@ + c })
            &&& d[2].op == (OpView::DeleteChain { table: t, chain: c })
        }),
{
}

/// Firewall handler of the `nat` table for a bridge's network.
pub struct NatIpTableManager {
    if_ip: IpNetwork,
}

impl NatIpTableManager {
    /// Network the handler was made for.
    pub closed spec fn spec_if_ip(&self) -> IpNetwork {
        self.if_ip
    }

    /// A handler for network `if_ip`.
    pub fn new(if_ip: IpNetwork) -> (r: NatIpTableManager)
        ensures
            r.spec_if_ip() == if_ip,
    {
        NatIpTableManager { if_ip }
    }

    /// Whether the handler works on IPv6 tables.
    pub fn uses_ipv6(&self) -> (r: bool)
        ensures
            r == (self.spec_if_ip()@.addr is V6),
    {
        self.if_ip.addr().is_ipv6()
    }
}

impl IpTableHandler for NatIpTableManager {
    /// Creating and hooking the chain, then adding the masquerading rules.
    fn insert_ip_table_rules(&self) -> (r: Vec<IptablesStep>)
        ensures
            plan_view(r@) == nat_insert_plan(network_text(self.spec_if_ip()@)),
    {
        let t = "nat";
        let c = owned("DAEMONVIRT_PRT");
        let postrouting = owned("POSTROUTING");
        let n = self.if_ip.to_text();
        let n = n.as_str();
        let mut r: Vec<IptablesStep> = Vec::new();
        r.push(mk(new_chain_if_missing(t, &c), FailureKind::ChainAdd, c.clone(), t));
        r.push(mk(append_replace(t, &postrouting, jump(&c)), FailureKind::ChainAdd, c.clone(), t));
        r.push(mk(append_replace(t, &c, concat3("-s ", n, " -d 224.0.0.0/24 -j RETURN")), FailureKind::RuleAdd, c.clone(), t));
        r.push(mk(append_replace(t, &c, concat3("-s ", n, " -d 225.255.255.255 -j RETURN")), FailureKind::RuleAdd, c.clone(), t));
        r.push(mk(append_replace(t, &c, concat5("-s ", n, " ! -d ", n, " -p tcp -j MASQUERADE --to-ports 1024-65535")), FailureKind::RuleAdd, c.clone(), t));
        r.push(mk(append_replace(t, &c, concat5("-s ", n, " ! -d ", n, " -p udp -j MASQUERADE --to-ports 1024-65535")), FailureKind::RuleAdd, c.clone(), t));
        r.push(mk(append_replace(t, &c, concat5("-s ", n, " ! -d ", n, " -j MASQUERADE")), FailureKind::RuleAdd, c.clone(), t));
        assert(plan_view(r@) =~= nat_insert_plan(network_text(self.spec_if_ip()@)));
        r
    }

    /// Emptying, unhooking and deleting the chain.
    fn remove_ip_table_rules(&self) -> (r: Vec<IptablesStep>)
        ensures
            plan_view(r@) == nat_remove_plan(),
    {
        let t = "nat";
        let c = owned("DAEMONVIRT_PRT");
        let postrouting = owned("POSTROUTING");
        let mut r: Vec<IptablesStep> = Vec::new();
        r.push(mk(flush_chain(t, &c), FailureKind::ChainRemove, c.clone(), t));
        r.push(mk(delete_rule(t, &postrouting, jump(&c)), FailureKind::ChainRemove, c.clone(), t));
        r.push(mk(delete_chain(t, &c), FailureKind::ChainRemove, c.clone(), t));
        assert(plan_view(r@) =~= nat_remove_plan());
        r
    }
}

// ---------------------------------------------------------------------------
// Running a plan

/// What to do next while running a plan: run the step at an index, or stop
/// with the plan's result.
#[derive(Debug)]
pub enum PlanAction {
    Run(usize),
    Finish(Result<(), IpTableHandlerError>),
}

/// The value of a `PlanAction`.
pub enum PlanActionView {
    Run(int),
    Finish(Result<(), IpTableHandlerErrorView>),
}

impl View for PlanAction {
    type V = PlanActionView;

    open spec fn view(&self) -> PlanActionView {
        match self {
            PlanAction::Run(i) => PlanActionView::Run(*i as int),
            PlanAction::Finish(Ok(())) => PlanActionView::Finish(Ok(())),
            PlanAction::Finish(Err(e)) => PlanActionView::Finish(Err(e@)),
        }
    }
}

/// The outcome of a step's operation with its failure message taken by view.
pub open spec fn outcome_view(o: Result<(), String>) -> Result<(), Seq<char>> {
    match o {
        Ok(()) => Ok(()),
        Err(m) => Err(m@),
    }
}

/// The first action of a plan's run.
pub open spec fn spec_start_plan(plan: Seq<StepView>) -> PlanActionView {
    if plan.len() == 0 {
        PlanActionView::Finish(Ok(()))
    } else {
        PlanActionView::Run(0)
    }
}

/// The action after step `i` ended with `outcome`: a failure stops the run
/// with that step's error, a success runs the next step or ends the run.
pub open spec fn spec_after_step(
    plan: Seq<StepView>,
    i: int,
    outcome: Result<(), Seq<char>>,
) -> PlanActionView {
    match outcome {
        Err(m) => PlanActionView::Finish(Err(step_error(plan[i], m))),
        Ok(()) => if i + 1 < plan.len() {
            PlanActionView::Run(i + 1)
        } else {
            PlanActionView::Finish(Ok(()))
        },
    }
}

/// The first action of a plan's run.
pub fn start_plan(plan: &Vec<IptablesStep>) -> (r: PlanAction)
    ensures
        r@ == spec_start_plan(plan_view(plan@)),
{
    if plan.len() == 0 {
        PlanAction::Finish(Ok(()))
    } else {
        PlanAction::Run(0)
    }
}

/// The action after step `i` of `plan` ended with `outcome`.
pub fn after_step(plan: &Vec<IptablesStep>, i: usize, outcome: Result<(), String>) -> (r: PlanAction)
    requires
        i < plan@.len(),
    ensures
        r@ == spec_after_step(plan_view(plan@), i as int, outcome_view(outcome)),
{
    match outcome {
        Err(m) => PlanAction::Finish(Err(plan[i].failure_error(m))),
        Ok(()) => if i < plan.len() - 1 {
            PlanAction::Run(i + 1)
        } else {
            PlanAction::Finish(Ok(()))
        },
    }
}

/// The result of a run from step `i` on, when step `k` ends with `outcomes[k]`.
pub open spec fn run_from(
    plan: Seq<StepView>,
    i: int,
    outcomes: Seq<Result<(), Seq<char>>>,
) -> Result<(), IpTableHandlerErrorView>
    decreases plan.len() - i,
{
    if i < 0 || i >= plan.len() {
        Ok(())
    } else {
        match spec_after_step(plan, i, outcomes[i]) {
            PlanActionView::Finish(r) => r,
            PlanActionView::Run(_) => run_from(plan, i + 1, outcomes),
        }
    }
}

/// The result of a whole run driven by `start_plan` and `after_step`.
pub open spec fn run_result(
    plan: Seq<StepView>,
    outcomes: Seq<Result<(), Seq<char>>>,
) -> Result<(), IpTableHandlerErrorView> {
    match spec_start_plan(plan) {
        PlanActionView::Finish(r) => r,
        PlanActionView::Run(_) => run_from(plan, 0, outcomes),
    }
}

proof fn lemma_run_from(plan: Seq<StepView>, i: int, outcomes: Seq<Result<(), Seq<char>>>)
    requires
        0 <= i <= plan.len(),
        outcomes.len() >= plan.len(),
    ensures
        run_from(plan, i, outcomes) is Ok <==> (forall|k: int| i <= k < plan.len() ==> outcomes[k] is Ok),
        run_from(plan, i, outcomes) is Err ==> exists|k: int|
            i <= k < plan.len() && outcomes[k] is Err && (forall|j: int| i <= j < k ==> outcomes[j] is Ok)
                && run_from(plan, i, outcomes) == Err::<(), IpTableHandlerErrorView>(
                step_error(plan[k], outcomes[k]->Err_0),
            ),
    decreases plan.len() - i,
{
    if i < plan.len() {
        lemma_run_from(plan, i + 1, outcomes);
        if outcomes[i] is Ok {
            if run_from(plan, i + 1, outcomes) is Err {
                let k = choose|k: int|
                    i + 1 <= k < plan.len() && outcomes[k] is Err && (forall|j: int| i + 1 <= j < k ==> outcomes[j] is Ok)
                        && run_from(plan, i + 1, outcomes) == Err::<(), IpTableHandlerErrorView>(
                        step_error(plan[k], outcomes[k]->Err_0),
                    );
                assert(forall|j: int| i <= j < k ==> outcomes[j] is Ok);
            }
        } else {
            assert(forall|j: int| i <= j < i ==> outcomes[j] is Ok);
        }
    }
}

/// A plan's run succeeds exactly when every step succeeds; otherwise it ends
/// with the error of the first step that failed, with that step's message.
pub proof fn law_plan_stops_at_first_failure(
    plan: Seq<StepView>,
    outcomes: Seq<Result<(), Seq<char>>>,
)
    requires
        outcomes.len() == plan.len(),
    ensures
        run_result(plan, outcomes) is Ok <==> (forall|k: int| 0 <= k < plan.len() ==> outcomes[k] is Ok),
        run_result(plan, outcomes) is Err ==> exists|k: int|
            0 <= k < plan.len() && outcomes[k] is Err && (forall|j: int| 0 <= j < k ==> outcomes[j] is Ok)
                && run_result(plan, outcomes) == Err::<(), IpTableHandlerErrorView>(
                step_error(plan[k], outcomes[k]->Err_0),
            ),
{
    lemma_run_from(plan, 0, outcomes);
}


// ---------------------------------------------------------------------------
// Tearing down what was set up

/// Whether the teardown `undo` removes what operation `op` of a setup adds:
/// a chain it creates is flushed and later deleted; a rule it appends is
/// deleted again, or lies in a chain that is flushed.
pub open spec fn removed_by(op: OpView, undo: Seq<StepView>) -> bool {
    match op {
        OpView::NewChain { table, chain } => chain_removed(table, chain, undo),
        OpView::NewChainIfMissing { table, chain } => chain_removed(table, chain, undo),
        OpView::AppendReplace { table, chain, rule } => (exists|j: int|
            0 <= j < undo.len() && #[trigger] undo[j].op == (OpView::Delete { table, chain, rule }))
            || (exists|j: int| 0 <= j < undo.len() && #[trigger] undo[j].op == (OpView::FlushChain { table, chain })),
        _ => true,
    }
}

/// Whether `undo` flushes chain `chain` of `table` and deletes it afterwards.
pub open spec fn chain_removed(table: Seq<char>, chain: Seq<char>, undo: Seq<StepView>) -> bool {
    exists|j1: int, j2: int|
        0 <= j1 < j2 < undo.len() && #[trigger] undo[j1].op == (OpView::FlushChain { table, chain })
            && #[trigger] undo[j2].op == (OpView::DeleteChain { table, chain })
}

/// Whether `undo` removes everything that the steps of `setup` add.
pub open spec fn undoes(setup: Seq<StepView>, undo: Seq<StepView>) -> bool {
    forall|i: int| 0 <= i < setup.len() ==> removed_by(#[trigger] setup[i].op, undo)
}

/// The `filter` chains' removal undoes their setup: each chain created is
/// flushed and later deleted, each jump hooked into `INPUT`, `OUTPUT` or
/// `FORWARD` is deleted, and each other rule lies in a flushed chain.
pub proof fn law_filter_cleanup_undoes_setup(if_name: Seq<char>, net: Seq<char>)
    ensures
        undoes(filter_create_chains_plan(if_name) + filter_rules_plan(if_name, net), filter_delete_chains_plan(if_name)),
{
    let t = filter_table();
    let c = filter_create_chains_plan(if_name);
    let r = filter_rules_plan(if_name, net);
    let s = c + r;
    let d = filter_delete_chains_plan(if_name);
    assert forall|i: int| 0 <= i < s.len() implies removed_by(#[trigger] s[i].op, d) by {
        if i == 0 {
            assert(d[0].op == (OpView::FlushChain { table: t, chain: filter_chain(if_name, "FWI"@) }));
            assert(d[10].op == (OpView::DeleteChain { table: t, chain: filter_chain(if_name, "FWI"@) }));
        } else if i == 1 {
            assert(d[1].op == (OpView::FlushChain { table: t, chain: filter_chain(if_name, "FWO"@) }));
            assert(d[11].op == (OpView::DeleteChain { table: t, chain: filter_chain(if_name, "FWO"@) }));
        } else if i == 2 {
            assert(d[2].op == (OpView::FlushChain { table: t, chain: filter_chain(if_name, "FWX"@) }));
            assert(d[12].op == (OpView::DeleteChain { table: t, chain: filter_chain(if_name, "FWX"@) }));
        } else if i == 3 {
            assert(d[3].op == (OpView::FlushChain { table: t, chain: filter_chain(if_name, "INP"@) }));
            assert(d[13].op == (OpView::DeleteChain { table: t, chain: filter_chain(if_name, "INP"@) }));
        } else if i == 4 {
            assert(d[4].op == (OpView::FlushChain { table: t, chain: filter_chain(if_name, "OUT"@) }));
            assert(d[14].op == (OpView::DeleteChain { table: t, chain: filter_chain(if_name, "OUT"@) }));
        } else if i == 5 {
            assert(d[5].op == (OpView::Delete { table: t, chain: "INPUT"@, rule: jump_rule(filter_chain(if_name, "INP"@)) }));
        } else if i == 6 {
            assert(d[6].op == (OpView::Delete { table: t, chain: "OUTPUT"@, rule: jump_rule(filter_chain(if_name, "OUT"@)) }));
        } else if i == 7 {
            assert(d[7].op == (OpView::Delete { table: t, chain: "FORWARD"@, rule: jump_rule(filter_chain(if_name, "FWI"@)) }));
        } else if i == 8 {
            assert(d[8].op == (OpView::Delete { table: t, chain: "FORWARD"@, rule: jump_rule(filter_chain(if_name, "FWO"@)) }));
        } else if i == 9 {
            assert(d[9].op == (OpView::Delete { table: t, chain: "FORWARD"@, rule: jump_rule(filter_chain(if_name, "FWX"@)) }));
        } else if i == 10 {
            assert(s[10] == r[0]);
            assert(d[0].op == (OpView::FlushChain { table: t, chain: filter_chain(if_name, "FWI"@) }));
        } else if i == 11 {
            assert(s[11] == r[1]);
            assert(d[0].op == (OpView::FlushChain { table: t, chain: filter_chain(if_name, "FWI"@) }));
        } else if i == 12 {
            assert(s[12] == r[2]);
            assert(d[1].op == (OpView::FlushChain { table: t, chain: filter_chain(if_name, "FWO"@) }));
        } else if i == 13 {
            assert(s[13] == r[3]);
            assert(d[1].op == (OpView::FlushChain { table: t, chain: filter_chain(if_name, "FWO"@) }));
        } else if i == 14 {
            assert(s[14] == r[4]);
            assert(d[2].op == (OpView::FlushChain { table: t, chain: filter_chain(if_name, "FWX"@) }));
        } else if i == 15 {
            assert(s[15] == r[5]);
            assert(d[3].op == (OpView::FlushChain { table: t, chain: filter_chain(if_name, "INP"@) }));
        } else if i == 16 {
            assert(s[16] == r[6]);
            assert(d[3].op == (OpView::FlushChain { table: t, chain: filter_chain(if_name, "INP"@) }));
        } else if i == 17 {
            assert(s[17] == r[7]);
            assert(d[3].op == (OpView::FlushChain { table: t, chain: filter_chain(if_name, "INP"@) }));
        } else if i == 18 {
            assert(s[18] == r[8]);
            assert(d[3].op == (OpView::FlushChain { table: t, chain: filter_chain(if_name, "INP"@) }));
        } else if i == 19 {
            assert(s[19] == r[9]);
            assert(d[4].op == (OpView::FlushChain { table: t, chain: filter_chain(if_name, "OUT"@) }));
        } else if i == 20 {
            assert(s[20] == r[10]);
            assert(d[4].op == (OpView::FlushChain { table: t, chain: filter_chain(if_name, "OUT"@) }));
        } else if i == 21 {
            assert(s[21] == r[11]);
            assert(d[4].op == (OpView::FlushChain { table: t, chain: filter_chain(if_name, "OUT"@) }));
        } else if i == 22 {
            assert(s[22] == r[12]);
            assert(d[4].op == (OpView::FlushChain { table: t, chain: filter_chain(if_name, "OUT"@) }));
        }
    }
}

/// The `mangle` chain's removal undoes its setup.
pub proof fn law_mangle_cleanup_undoes_setup(if_name: Seq<char>)
    ensures
        undoes(mangle_insert_plan(if_name), mangle_remove_plan(if_name)),
{
    let t = mangle_table();
    let c = mangle_chain(if_name);
    let s = mangle_insert_plan(if_name);
    let d = mangle_remove_plan(if_name);
    assert forall|i: int| 0 <= i < s.len() implies removed_by(#[trigger] s[i].op, d) by {
        assert(d[0].op == (OpView::FlushChain { table: t, chain: c }));
        assert(d[1].op == (OpView::Delete { table: t, chain: "POSTROUTING"@, rule: jump_rule(c) }));
        assert(d[2].op == (OpView::DeleteChain { table: t, chain: c }));
    }
}

/// The `nat` chain's removal undoes its setup.
pub proof fn law_nat_cleanup_undoes_setup(net: Seq<char>)
    ensures
        undoes(nat_insert_plan(net), nat_remove_plan()),
{
    let t = nat_table();
    let c = nat_chain();
    let s = nat_insert_plan(net);
    let d = nat_remove_plan();
    assert forall|i: int| 0 <= i < s.len() implies removed_by(#[trigger] s[i].op, d) by {
        assert(d[0].op == (OpView::FlushChain { table: t, chain: c }));
        assert(d[1].op == (OpView::Delete { table: t, chain: "POSTROUTING"@, rule: jump_rule(c) }));
        assert(d[2].op == (OpView::DeleteChain { table: t, chain: c }));
    }
}

proof fn lemma_removed_extend(op: OpView, u: Seq<StepView>, v: Seq<StepView>)
    ensures
        removed_by(op, u) ==> removed_by(op, u + v),
        removed_by(op, v) ==> removed_by(op, u + v),
{
    let w = u + v;
    match op {
        OpView::NewChain { table, chain } | OpView::NewChainIfMissing { table, chain } => {
            if chain_removed(table, chain, u) {
                let (j1, j2) = choose|j1: int, j2: int|
                    0 <= j1 < j2 < u.len() && #[trigger] u[j1].op == (OpView::FlushChain { table, chain })
                        && #[trigger] u[j2].op == (OpView::DeleteChain { table, chain });
                assert(w[j1] == u[j1] && w[j2] == u[j2]);
            }
            if chain_removed(table, chain, v) {
                let (j1, j2) = choose|j1: int, j2: int|
                    0 <= j1 < j2 < v.len() && #[trigger] v[j1].op == (OpView::FlushChain { table, chain })
                        && #[trigger] v[j2].op == (OpView::DeleteChain { table, chain });
                assert(w[u.len() + j1] == v[j1] && w[u.len() + j2] == v[j2]);
            }
        },
        OpView::AppendReplace { table, chain, rule } => {
            if exists|j: int| 0 <= j < u.len() && #[trigger] u[j].op == (OpView::Delete { table, chain, rule }) {
                let j = choose|j: int| 0 <= j < u.len() && #[trigger] u[j].op == (OpView::Delete { table, chain, rule });
                assert(w[j] == u[j]);
            }
            if exists|j: int| 0 <= j < u.len() && #[trigger] u[j].op == (OpView::FlushChain { table, chain }) {
                let j = choose|j: int| 0 <= j < u.len() && #[trigger] u[j].op == (OpView::FlushChain { table, chain });
                assert(w[j] == u[j]);
            }
            if exists|j: int| 0 <= j < v.len() && #[trigger] v[j].op == (OpView::Delete { table, chain, rule }) {
                let j = choose|j: int| 0 <= j < v.len() && #[trigger] v[j].op == (OpView::Delete { table, chain, rule });
                assert(w[u.len() + j] == v[j]);
            }
            if exists|j: int| 0 <= j < v.len() && #[trigger] v[j].op == (OpView::FlushChain { table, chain }) {
                let j = choose|j: int| 0 <= j < v.len() && #[trigger] v[j].op == (OpView::FlushChain { table, chain });
                assert(w[u.len() + j] == v[j]);
            }
        },
        _ => {},
    }
}

proof fn lemma_undoes_concat(a1: Seq<StepView>, b1: Seq<StepView>, a2: Seq<StepView>, b2: Seq<StepView>)
    requires
        undoes(a1, b1),
        undoes(a2, b2),
    ensures
        undoes(a1 + a2, b1 + b2),
{
    let a = a1 + a2;
    assert forall|i: int| 0 <= i < a.len() implies removed_by(#[trigger] a[i].op, b1 + b2) by {
        if i < a1.len() {
            assert(a[i] == a1[i]);
            lemma_removed_extend(a1[i].op, b1, b2);
        } else {
            assert(a[i] == a2[i - a1.len()]);
            lemma_removed_extend(a2[i - a1.len()].op, b1, b2);
        }
    }
}

// ---------------------------------------------------------------------------
// Routing of the NAT network: the three tables together

/// The step that opens the iptables handle; its failure is a `HandlerError`.
pub open spec fn open_step(ipv6: bool) -> StepView {
    sv(OpView::OpenHandler { ipv6 }, FailureKind::Handler, Seq::empty(), Seq::empty())
}

fn open_handler(ipv6: bool) -> (s: IptablesStep)
    ensures
        s@ == open_step(ipv6),
{
    let s = mk(IptablesOp::OpenHandler { ipv6 }, FailureKind::Handler, String::new(), "");
    proof {
        reveal_strlit("");
    }
    assert(s@.failure_table =~= Seq::<char>::empty());
    s
}

/// Steps that set up the routing of a bridge's network: the `nat`, then
/// the `filter`, then the `mangle` rules, each table through its own handle.
pub open spec fn routing_setup_plan(if_name: Seq<char>, net: IpNetwork) -> Seq<StepView> {
    let v6 = net@.addr is V6;
    seq![open_step(v6)] + nat_insert_plan(network_text(net@)) + seq![open_step(v6)]
        + filter_create_chains_plan(if_name) + filter_rules_plan(if_name, network_text(net@))
        + seq![open_step(v6)] + mangle_insert_plan(if_name)
}

/// Steps that remove the routing of a bridge's network, table by table in
/// the same order.
pub open spec fn routing_cleanup_plan(if_name: Seq<char>, net: IpNetwork) -> Seq<StepView> {
    let v6 = net@.addr is V6;
    seq![open_step(v6)] + nat_remove_plan() + seq![open_step(v6)] + filter_delete_chains_plan(
        if_name,
    ) + seq![open_step(v6)] + mangle_remove_plan(if_name)
}

/// The routing cleanup removes everything the routing setup adds: each
/// chain the setup creates is flushed and later deleted, and each rule it
/// appends is deleted or lies in a chain that is flushed.
pub proof fn law_cleanup_undoes_setup(if_name: Seq<char>, net: IpNetwork)
    ensures
        undoes(routing_setup_plan(if_name, net), routing_cleanup_plan(if_name, net)),
{
    let v6 = net@.addr is V6;
    let n = network_text(net@);
    let o = seq![open_step(v6)];
    assert(undoes(o, o));
    law_nat_cleanup_undoes_setup(n);
    law_filter_cleanup_undoes_setup(if_name, n);
    law_mangle_cleanup_undoes_setup(if_name);
    lemma_undoes_concat(o, o, nat_insert_plan(n), nat_remove_plan());
    lemma_undoes_concat(o + nat_insert_plan(n), o + nat_remove_plan(), o, o);
    let fs = filter_create_chains_plan(if_name) + filter_rules_plan(if_name, n);
    lemma_undoes_concat(o + nat_insert_plan(n) + o, o + nat_remove_plan() + o, fs, filter_delete_chains_plan(if_name));
    lemma_undoes_concat(o + nat_insert_plan(n) + o + fs, o + nat_remove_plan() + o + filter_delete_chains_plan(if_name), o, o);
    lemma_undoes_concat(
        o + nat_insert_plan(n) + o + fs + o,
        o + nat_remove_plan() + o + filter_delete_chains_plan(if_name) + o,
        mangle_insert_plan(if_name),
        mangle_remove_plan(if_name),
    );
    assert(routing_setup_plan(if_name, net) =~= o + nat_insert_plan(n) + o + fs + o + mangle_insert_plan(if_name));
    assert(routing_cleanup_plan(if_name, net) =~= o + nat_remove_plan() + o + filter_delete_chains_plan(if_name) + o
        + mangle_remove_plan(if_name));
}

/// The routing of a bridge's network is set up table by table, each through
/// a handle of the network's IP family: first `nat` (its seven steps for the
/// network's text), then `filter` (the chains of the bridge, then their
/// rules), then `mangle`; its cleanup goes through the tables in the same
/// order.
pub proof fn law_routing_order(n: Seq<char>, net: IpNetwork)
    ensures
        ({
            let p = routing_setup_plan(n, net);
            let d = routing_cleanup_plan(n, net);
            let v6 = net@.addr is V6;
            &&& p.len() == 36
            &&& p[0].op == (OpView::OpenHandler { ipv6: v6 }) && p[0].failure == FailureKind::Handler
            &&& p[8].op == (OpView::OpenHandler { ipv6: v6 }) && p[8].failure == FailureKind::Handler
            &&& p[32].op == (OpView::OpenHandler { ipv6: v6 }) && p[32].failure == FailureKind::Handler
            &&& p.subrange(1, 8) =~= nat_insert_plan(network_text(net@))
            &&& p.subrange(9, 19) =~= filter_create_chains_plan(n)
            &&& p.subrange(19, 32) =~= filter_rules_plan(n, network_text(net@))
            &&& p.subrange(33, 36) =~= mangle_insert_plan(n)
            &&& d.len() == 24
            &&& d[0].op == (OpView::OpenHandler { ipv6: v6 })
            &&& d[4].op == (OpView::OpenHandler { ipv6: v6 })
            &&& d[20].op == (OpView::OpenHandler { ipv6: v6 })
            &&& d.subrange(1, 4) =~= nat_remove_plan()
            &&& d.subrange(5, 20) =~= filter_delete_chains_plan(n)
            &&& d.subrange(21, 24) =~= mangle_remove_plan(n)
        }),
{
}

/// Steps that set up the routing of bridge `if_name` with network `if_ip`.
pub fn routing_setup(if_name: &String, if_ip: IpNetwork) -> (r: Vec<IptablesStep>)
    ensures
        plan_view(r@) == routing_setup_plan(if_name@, if_ip),
{
    let v6 = if_ip.addr().is_ipv6();
    let nat_handler = NatIpTableManager::new(if_ip);
    let filter = FilterIpTableManager::new(if_name.clone(), if_ip);
    let mangle = MangleTableManager::new(if_name.clone(), if_ip);
    let ghost n = network_text(if_ip@);
    let mut r: Vec<IptablesStep> = Vec::new();
    r.push(open_handler(v6));
    let mut p = nat_handler.insert_ip_table_rules();
    r.append(&mut p);
    assert(plan_view(r@) =~= seq![open_step(v6)] + nat_insert_plan(n));
    let ghost a = plan_view(r@);
    r.push(open_handler(v6));
    let mut p = filter.insert_ip_table_rules();
    r.append(&mut p);
    assert(plan_view(r@) =~= a + seq![open_step(v6)] + (filter_create_chains_plan(if_name@)
        + filter_rules_plan(if_name@, n)));
    let ghost b = plan_view(r@);
    r.push(open_handler(v6));
    let mut p = mangle.insert_ip_table_rules();
    r.append(&mut p);
    assert(plan_view(r@) =~= b + seq![open_step(v6)] + mangle_insert_plan(if_name@));
    assert(plan_view(r@) =~= routing_setup_plan(if_name@, if_ip));
    r
}

/// Steps that remove the routing of bridge `if_name` with network `if_ip`.
pub fn routing_cleanup(if_name: &String, if_ip: IpNetwork) -> (r: Vec<IptablesStep>)
    ensures
        plan_view(r@) == routing_cleanup_plan(if_name@, if_ip),
{
    let v6 = if_ip.addr().is_ipv6();
    let nat_handler = NatIpTableManager::new(if_ip);
    let filter = FilterIpTableManager::new(if_name.clone(), if_ip);
    let mangle = MangleTableManager::new(if_name.clone(), if_ip);
    let mut r: Vec<IptablesStep> = Vec::new();
    r.push(open_handler(v6));
    let mut p = nat_handler.remove_ip_table_rules();
    r.append(&mut p);
    r.push(open_handler(v6));
    let mut p = filter.remove_ip_table_rules();
    r.append(&mut p);
    r.push(open_handler(v6));
    let mut p = mangle.remove_ip_table_rules();
    r.append(&mut p);
    assert(plan_view(r@) =~= routing_cleanup_plan(if_name@, if_ip));
    r
}

/// The message of a firewall error.
pub open spec fn handler_error_message(e: IpTableHandlerErrorView) -> Seq<char> {
    match e {
        IpTableHandlerErrorView::HandlerError(m) => "Failed to create handler: "@ + m,
        IpTableHandlerErrorView::Failed { kind, chain_name, table_name, message } => match kind {
            FailureKind::RuleAdd => "Failed to insert rule to chain: "@ + chain_name + " in table: "@
                + table_name + " message: "@ + message,
            FailureKind::ChainAdd => "Failed to insert chain: "@ + chain_name + " to table: "@
                + table_name + " message: "@ + message,
            FailureKind::ChainRemove => "Failed to remove chain: "@ + chain_name + " from table: "@
                + table_name + " message: "@ + message,
            FailureKind::Handler => "Failed to create handler: "@ + message,
        },
    }
}

impl IpTableHandlerError {
    /// The error's message.
    pub fn to_message(&self) -> (r: String)
        ensures
            r@ == handler_error_message(self@),
    {
        let r = match self {
            IpTableHandlerError::HandlerError(m) => concat2("Failed to create handler: ", m.as_str()),
            IpTableHandlerError::RuleAdd { chain_name, table_name, message } => {
                let mut r = concat4("Failed to insert rule to chain: ", chain_name.as_str(), " in table: ", table_name.as_str());
                r.append(" message: ");
                r.append(message.as_str());
                r
            },
            IpTableHandlerError::ChainAdd { chain_name, table_name, message } => {
                let mut r = concat4("Failed to insert chain: ", chain_name.as_str(), " to table: ", table_name.as_str());
                r.append(" message: ");
                r.append(message.as_str());
                r
            },
            IpTableHandlerError::ChainRemove { chain_name, table_name, message } => {
                let mut r = concat4("Failed to remove chain: ", chain_name.as_str(), " from table: ", table_name.as_str());
                r.append(" message: ");
                r.append(message.as_str());
                r
            },
        };
        r
    }
}

} // verus!
