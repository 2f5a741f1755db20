//! The link that a measurement runs over, as the commands that build it.
//!
//! A measurement is only worth as much as the link under it, so the harness
//! builds its own: two network namespaces joined by a veth pair, with `netem`
//! shaping each end. Namespaces and veth pairs outlive the process that made
//! them, so teardown is recorded as it is set up and undone in reverse: an error
//! part-way through, or a signal, leaves the host as clean as a normal exit does.

use vstd::prelude::*;
use vstd::string::*;

use crate::args::{MeasurementArgs, ProtocolArgs};
use crate::text::{append_words, decimal, decimal_chars, join, labelled, texts, words};

verus! {

/// The impairment applied to the link, as `netem` is told of it.
#[derive(Debug)]
pub struct Shaping {
    /// Milliseconds, in each direction.
    pub delay: u64,
    /// Megabits per second, in each direction.
    pub bandwidth: String,
    /// Percentage of packets dropped in each direction, if any are.
    pub loss: Option<String>,
}

/// What becomes of the teardown once a command has succeeded.
#[derive(Debug)]
pub enum Undo {
    /// Nothing.
    Keep,
    /// This command undoes it.
    Add(Vec<String>),
    /// This command takes the place of the last one.
    Replace(Vec<String>),
    /// The last command is not needed any more.
    Drop,
}

/// One command of the setup.
#[derive(Debug)]
pub struct SetupStep {
    /// The command.
    pub command: Vec<String>,
    /// What becomes of the teardown once it has succeeded.
    pub undo: Undo,
}

/// An [`Undo`] as a mathematical value.
#[verifier::ext_equal]
pub ghost enum UndoView {
    Keep,
    Add(Seq<Seq<char>>),
    Replace(Seq<Seq<char>>),
    Drop,
}

/// A [`SetupStep`] as a mathematical value.
#[verifier::ext_equal]
pub ghost struct StepView {
    pub command: Seq<Seq<char>>,
    pub undo: UndoView,
}

impl View for Undo {
    type V = UndoView;

    open spec fn view(&self) -> UndoView {
        match *self {
            Undo::Keep => UndoView::Keep,
            Undo::Add(command) => UndoView::Add(texts(command@)),
            Undo::Replace(command) => UndoView::Replace(texts(command@)),
            Undo::Drop => UndoView::Drop,
        }
    }
}

impl View for SetupStep {
    type V = StepView;

    open spec fn view(&self) -> StepView {
        StepView { command: texts(self.command@), undo: self.undo@ }
    }
}

/// What a list of commands says.
pub open spec fn commands(list: Seq<Vec<String>>) -> Seq<Seq<Seq<char>>> {
    list.map_values(|command: Vec<String>| texts(command@))
}

/// What a list of steps says.
pub open spec fn steps(list: Seq<SetupStep>) -> Seq<StepView> {
    list.map_values(|step: SetupStep| step@)
}

/// The names of the two namespaces and of the two ends of the pair.
#[verifier::ext_equal]
pub ghost struct Names {
    pub client_ns: Seq<char>,
    pub server_ns: Seq<char>,
    pub client_dev: Seq<char>,
    pub server_dev: Seq<char>,
}

/// The names that a process goes by: suffixed with its ID, so that concurrent
/// runs do not fight over the same namespaces and interfaces.
pub open spec fn names_for(pid: u32) -> Names {
    Names {
        client_ns: "transit-client-"@ + decimal_chars(pid as nat),
        server_ns: "transit-server-"@ + decimal_chars(pid as nat),
        client_dev: "vc"@ + decimal_chars(pid as nat),
        server_dev: "vs"@ + decimal_chars(pid as nat),
    }
}

/// A command that only has to succeed.
pub open spec fn plain(command: Seq<Seq<char>>) -> StepView {
    StepView { command, undo: UndoView::Keep }
}

/// The commands that join the two namespaces, and what undoes them.
///
/// Deleting either end of the pair takes the whole pair down. Once the client end
/// is out of reach the pair is undone through its peer, and once both ends sit in
/// a namespace, deleting the namespaces is enough.
pub open spec fn joining(n: Names) -> Seq<StepView> {
    seq![
        StepView {
            command: seq!["ip"@, "netns"@, "add"@, n.client_ns],
            undo: UndoView::Add(seq!["ip"@, "netns"@, "del"@, n.client_ns]),
        },
        StepView {
            command: seq!["ip"@, "netns"@, "add"@, n.server_ns],
            undo: UndoView::Add(seq!["ip"@, "netns"@, "del"@, n.server_ns]),
        },
        StepView {
            command: seq![
                "ip"@,
                "link"@,
                "add"@,
                n.client_dev,
                "type"@,
                "veth"@,
                "peer"@,
                "name"@,
                n.server_dev,
            ],
            undo: UndoView::Add(seq!["ip"@, "link"@, "del"@, n.client_dev]),
        },
        StepView {
            command: seq!["ip"@, "link"@, "set"@, n.client_dev, "netns"@, n.client_ns],
            undo: UndoView::Replace(seq!["ip"@, "link"@, "del"@, n.server_dev]),
        },
        StepView {
            command: seq!["ip"@, "link"@, "set"@, n.server_dev, "netns"@, n.server_ns],
            undo: UndoView::Drop,
        },
    ]
}

/// The command that sets a kernel knob inside a namespace.
pub open spec fn sysctl(namespace: Seq<char>, setting: Seq<char>) -> Seq<Seq<char>> {
    seq!["ip"@, "netns"@, "exec"@, namespace, "sysctl"@, "-q"@, "-w"@, setting]
}

/// The command that shapes one end of the link.
///
/// `netem` shapes egress only, so each end gets its own. The queue is long enough
/// that it drops nothing on its own account.
pub open spec fn shaping(namespace: Seq<char>, device: Seq<char>, s: Shaping) -> Seq<Seq<char>> {
    seq![
        "ip"@,
        "netns"@,
        "exec"@,
        namespace,
        "tc"@,
        "qdisc"@,
        "add"@,
        "dev"@,
        device,
        "root"@,
        "netem"@,
        "limit"@,
        "100000"@,
        "delay"@,
        decimal_chars(s.delay as nat) + "ms"@,
        "rate"@,
        s.bandwidth@ + "mbit"@,
    ] + match s.loss {
        Some(loss) => seq!["loss"@, loss@ + "%"@],
        None => seq![],
    }
}

/// The commands that bring one end of the link up.
///
/// The socket buffer ceilings are raised out of the way: one below the transit
/// window would bind instead of the window.
pub open spec fn bringing_up(
    namespace: Seq<char>,
    device: Seq<char>,
    ip: Seq<char>,
    s: Shaping,
) -> Seq<StepView> {
    seq![
        plain(seq!["ip"@, "-n"@, namespace, "addr"@, "add"@, ip + "/24"@, "dev"@, device]),
        plain(seq!["ip"@, "-n"@, namespace, "link"@, "set"@, "dev"@, device, "up"@]),
        plain(seq!["ip"@, "-n"@, namespace, "link"@, "set"@, "dev"@, "lo"@, "up"@]),
        plain(sysctl(namespace, "net.ipv4.tcp_wmem=4096 131072 67108864"@)),
        plain(sysctl(namespace, "net.ipv4.tcp_rmem=4096 131072 67108864"@)),
        plain(shaping(namespace, device, s)),
    ]
}

/// Every command of the setup, in order.
pub open spec fn plan_of(n: Names, s: Shaping) -> Seq<StepView> {
    joining(n) + bringing_up(n.client_ns, n.client_dev, "10.200.0.1"@, s) + bringing_up(
        n.server_ns,
        n.server_dev,
        "10.200.0.2"@,
        s,
    )
}

/// The teardown once a step has succeeded.
pub open spec fn recorded(teardown: Seq<Seq<Seq<char>>>, undo: UndoView) -> Seq<Seq<Seq<char>>> {
    match undo {
        UndoView::Keep => teardown,
        UndoView::Add(command) => teardown.push(command),
        UndoView::Replace(command) => teardown.drop_last().push(command),
        UndoView::Drop => teardown.drop_last(),
    }
}

/// The teardown once a run of steps has succeeded.
pub open spec fn recorded_after(done: Seq<StepView>) -> Seq<Seq<Seq<char>>>
    decreases done.len(),
{
    if done.len() == 0 {
        Seq::empty()
    } else {
        recorded(recorded_after(done.drop_last()), done.last().undo)
    }
}

/// The two network namespaces and the veth pair connecting them.
#[derive(Debug)]
pub struct Network {
    /// Namespace of the client.
    pub client_ns: String,
    /// Namespace of the server.
    pub server_ns: String,
    /// The client's end of the pair.
    pub client_dev: String,
    /// The server's end of the pair.
    pub server_dev: String,
    /// Commands undoing the setup so far, in the order they were applied.
    pub teardown: Vec<Vec<String>>,
}

impl Network {
    /// The names it goes by.
    pub open spec fn names(self) -> Names {
        Names {
            client_ns: self.client_ns@,
            server_ns: self.server_ns@,
            client_dev: self.client_dev@,
            server_dev: self.server_dev@,
        }
    }

    /// A network of the process `pid`, with nothing set up.
    pub fn new(pid: u32) -> (r: Self)
        ensures
            r.names() == names_for(pid),
            r.teardown@ == Seq::<Vec<String>>::empty(),
    {
        Network {
            client_ns: labelled("transit-client-", pid as u64),
            server_ns: labelled("transit-server-", pid as u64),
            // Interface names are capped at 15 characters.
            client_dev: labelled("vc", pid as u64),
            server_dev: labelled("vs", pid as u64),
            teardown: Vec::new(),
        }
    }

    /// Every command of the setup, in order.
    pub fn set_up(&self, link: &Shaping) -> (r: Vec<SetupStep>)
        ensures
            steps(r@) == plan_of(self.names(), *link),
    {
        let client_ns = self.client_ns.as_str();
        let server_ns = self.server_ns.as_str();
        let client_dev = self.client_dev.as_str();
        let server_dev = self.server_dev.as_str();
        let mut plan: Vec<SetupStep> = Vec::new();
        plan.push(
            SetupStep {
                command: words(&["ip", "netns", "add", client_ns]),
                undo: Undo::Add(words(&["ip", "netns", "del", client_ns])),
            },
        );
        plan.push(
            SetupStep {
                command: words(&["ip", "netns", "add", server_ns]),
                undo: Undo::Add(words(&["ip", "netns", "del", server_ns])),
            },
        );
        plan.push(
            SetupStep {
                command: words(
                    &["ip", "link", "add", client_dev, "type", "veth", "peer", "name", server_dev],
                ),
                undo: Undo::Add(words(&["ip", "link", "del", client_dev])),
            },
        );
        plan.push(
            SetupStep {
                command: words(&["ip", "link", "set", client_dev, "netns", client_ns]),
                undo: Undo::Replace(words(&["ip", "link", "del", server_dev])),
            },
        );
        plan.push(
            SetupStep {
                command: words(&["ip", "link", "set", server_dev, "netns", server_ns]),
                undo: Undo::Drop,
            },
        );
        proof {
            let n = self.names();
            assert(steps(plan@)[0] =~~= joining(n)[0]);
            assert(steps(plan@)[1] =~~= joining(n)[1]);
            assert(steps(plan@)[2] =~~= joining(n)[2]);
            assert(steps(plan@)[3] =~~= joining(n)[3]);
            assert(steps(plan@)[4] =~~= joining(n)[4]);
            assert(steps(plan@) =~= joining(n));
        }
        bring_up(&mut plan, client_ns, client_dev, "10.200.0.1", link);
        bring_up(&mut plan, server_ns, server_dev, "10.200.0.2", link);
        plan
    }

    /// Records that a step of the setup has succeeded.
    pub fn record(&mut self, undo: Undo)
        requires
            undo is Replace || undo is Drop ==> old(self).teardown@.len() > 0,
        ensures
            final(self).names() == old(self).names(),
            commands(final(self).teardown@) == recorded(commands(old(self).teardown@), undo@),
    {
        let ghost before = self.teardown@;
        match undo {
            Undo::Keep => {},
            Undo::Add(command) => {
                self.teardown.push(command);
                assert(commands(self.teardown@) =~= commands(before).push(texts(command@)));
            },
            Undo::Replace(command) => {
                self.teardown.pop();
                self.teardown.push(command);
                assert(commands(self.teardown@) =~= commands(before).drop_last().push(
                    texts(command@),
                ));
            },
            Undo::Drop => {
                self.teardown.pop();
                assert(commands(self.teardown@) =~= commands(before).drop_last());
            },
        }
    }

    /// Takes the commands that undo the setup so far, the last one first.
    pub fn take_teardown(&mut self) -> (r: Vec<Vec<String>>)
        ensures
            final(self).names() == old(self).names(),
            final(self).teardown@ == Seq::<Vec<String>>::empty(),
            r@ == old(self).teardown@.reverse(),
    {
        let mut r: Vec<Vec<String>> = Vec::new();
        let ghost all = self.teardown@;
        assert(r@ =~= all.skip(all.len() as int).reverse());
        while self.teardown.len() > 0
            invariant
                self.names() == old(self).names(),
                all == old(self).teardown@,
                self.teardown@.len() <= all.len(),
                self.teardown@ == all.take(self.teardown@.len() as int),
                r@ == all.skip(self.teardown@.len() as int).reverse(),
            decreases self.teardown@.len(),
        {
            let ghost left = self.teardown@.len() - 1;
            match self.teardown.pop() {
                Some(command) => {
                    r.push(command);
                    assert(r@ =~= all.skip(left).reverse());
                },
                None => {},
            }
        }
        assert(all.skip(0) =~= all);
        r
    }
}

/// The command that shapes one end of the link.
fn shape(namespace: &str, device: &str, link: &Shaping) -> (r: Vec<String>)
    ensures
        texts(r@) == shaping(namespace@, device@, *link),
{
    let mut delay = decimal(link.delay);
    delay.append("ms");
    let rate = join(link.bandwidth.as_str(), "mbit");
    let mut command = words(
        &[
            "ip",
            "netns",
            "exec",
            namespace,
            "tc",
            "qdisc",
            "add",
            "dev",
            device,
            "root",
            "netem",
            "limit",
            "100000",
            "delay",
            delay.as_str(),
            "rate",
            rate.as_str(),
        ],
    );
    match &link.loss {
        Some(loss) => {
            let loss = join(loss.as_str(), "%");
            append_words(&mut command, words(&["loss", loss.as_str()]));
        },
        None => {},
    }
    assert(texts(command@) =~= shaping(namespace@, device@, *link));
    command
}

/// Adds the commands that bring one end of the link up.
fn bring_up(plan: &mut Vec<SetupStep>, namespace: &str, device: &str, ip: &str, link: &Shaping)
    ensures
        steps(final(plan)@) == steps(old(plan)@) + bringing_up(namespace@, device@, ip@, *link),
{
    let ghost before = plan@;
    let address = join(ip, "/24");
    plan.push(
        SetupStep {
            command: words(
                &["ip", "-n", namespace, "addr", "add", address.as_str(), "dev", device],
            ),
            undo: Undo::Keep,
        },
    );
    plan.push(
        SetupStep {
            command: words(&["ip", "-n", namespace, "link", "set", "dev", device, "up"]),
            undo: Undo::Keep,
        },
    );
    plan.push(
        SetupStep {
            command: words(&["ip", "-n", namespace, "link", "set", "dev", "lo", "up"]),
            undo: Undo::Keep,
        },
    );
    plan.push(
        SetupStep {
            command: words(
                &[
                    "ip",
                    "netns",
                    "exec",
                    namespace,
                    "sysctl",
                    "-q",
                    "-w",
                    "net.ipv4.tcp_wmem=4096 131072 67108864",
                ],
            ),
            undo: Undo::Keep,
        },
    );
    plan.push(
        SetupStep {
            command: words(
                &[
                    "ip",
                    "netns",
                    "exec",
                    namespace,
                    "sysctl",
                    "-q",
                    "-w",
                    "net.ipv4.tcp_rmem=4096 131072 67108864",
                ],
            ),
            undo: Undo::Keep,
        },
    );
    plan.push(SetupStep { command: shape(namespace, device, link), undo: Undo::Keep });
    proof {
        let added = bringing_up(namespace@, device@, ip@, *link);
        let n = before.len() as int;
        assert(steps(plan@)[n] =~~= added[0]);
        assert(steps(plan@)[n + 1] =~~= added[1]);
        assert(steps(plan@)[n + 2] =~~= added[2]);
        assert(steps(plan@)[n + 3] =~~= added[3]);
        assert(steps(plan@)[n + 4] =~~= added[4]);
        assert(steps(plan@)[n + 5] =~~= added[5]);
        assert(steps(plan@) =~= steps(before) + added);
    }
}

/// The command line of the server process.
pub fn server_args(protocol: &ProtocolArgs) -> (r: Vec<String>)
    ensures
        texts(r@) == seq!["server"@, "--addr"@, "10.200.0.2:9000"@] + protocol.argv(),
{
    let mut args = words(&["server", "--addr", "10.200.0.2:9000"]);
    assert(texts(args@) =~= seq!["server"@, "--addr"@, "10.200.0.2:9000"@]);
    append_words(&mut args, protocol.to_argv());
    args
}

/// The command line of the client process.
pub fn client_args(protocol: &ProtocolArgs, measurement: MeasurementArgs) -> (r: Vec<String>)
    ensures
        texts(r@) == seq!["client"@, "--addr"@, "10.200.0.2:9000"@] + protocol.argv()
            + measurement.argv(),
{
    let mut args = words(&["client", "--addr", "10.200.0.2:9000"]);
    assert(texts(args@) =~= seq!["client"@, "--addr"@, "10.200.0.2:9000"@]);
    append_words(&mut args, protocol.to_argv());
    append_words(&mut args, measurement.to_argv());
    args
}

/// The code a run exits with, given whether each end succeeded, or that a signal
/// cut it short: 0 if both ends succeeded, 130 if a signal cut the run short, 1
/// otherwise.
pub fn exit_code(client: Option<bool>, server: Option<bool>) -> (r: i32)
    ensures
        r == 130 <==> client is None || server is None,
        r == 0 <==> client == Some(true) && server == Some(true),
        r == 130 || r == 0 || r == 1,
{
    match (client, server) {
        (Some(client), Some(server)) => if client && server {
            0
        } else {
            1
        },
        _ => 130,
    }
}

/// However far the setup got, the teardown deletes every namespace that was made
/// and the pair as long as one of its ends is still outside them, through an end
/// that is.
pub proof fn teardown_covers_what_was_set_up(n: Names, s: Shaping, done: int)
    requires
        0 <= done <= plan_of(n, s).len(),
    ensures
        ({
            let teardown = recorded_after(plan_of(n, s).take(done));
            let del_client = seq!["ip"@, "netns"@, "del"@, n.client_ns];
            let del_server = seq!["ip"@, "netns"@, "del"@, n.server_ns];
            if done == 0 {
                teardown == Seq::<Seq<Seq<char>>>::empty()
            } else if done == 1 {
                teardown == seq![del_client]
            } else if done == 3 {
                teardown == seq![
                    del_client,
                    del_server,
                    seq!["ip"@, "link"@, "del"@, n.client_dev],
                ]
            } else if done == 4 {
                teardown == seq![
                    del_client,
                    del_server,
                    seq!["ip"@, "link"@, "del"@, n.server_dev],
                ]
            } else {
                teardown == seq![del_client, del_server]
            }
        }),
    decreases done,
{
    let plan = plan_of(n, s);
    if done == 0 {
        assert(plan.take(0) =~= Seq::empty());
    } else {
        teardown_covers_what_was_set_up(n, s, done - 1);
        let upto = plan.take(done);
        assert(upto.drop_last() =~= plan.take(done - 1));
        assert(upto.last() == plan[done - 1]);
        let teardown = recorded_after(upto);
        let prior = recorded_after(plan.take(done - 1));
        assert(teardown == recorded(prior, plan[done - 1].undo));
        let del_client = seq!["ip"@, "netns"@, "del"@, n.client_ns];
        let del_server = seq!["ip"@, "netns"@, "del"@, n.server_ns];
        if done == 1 {
            assert(teardown =~= seq![del_client]);
        } else if done == 2 || done == 5 {
            assert(teardown =~= seq![del_client, del_server]);
        } else if done == 3 {
            assert(teardown =~= seq![
                del_client,
                del_server,
                seq!["ip"@, "link"@, "del"@, n.client_dev],
            ]);
        } else if done == 4 {
            assert(teardown =~= seq![
                del_client,
                del_server,
                seq!["ip"@, "link"@, "del"@, n.server_dev],
            ]);
        } else {
            assert(plan[done - 1].undo is Keep);
        }
    }
}

/// Two processes never share a namespace or an interface.
pub proof fn processes_do_not_share_names(a: u32, b: u32)
    requires
        a != b,
    ensures
        names_for(a).client_ns != names_for(b).client_ns,
        names_for(a).server_ns != names_for(b).server_ns,
        names_for(a).client_dev != names_for(b).client_dev,
        names_for(a).server_dev != names_for(b).server_dev,
{
    suffixes_tell_apart("transit-client-"@, a, b);
    suffixes_tell_apart("transit-server-"@, a, b);
    suffixes_tell_apart("vc"@, a, b);
    suffixes_tell_apart("vs"@, a, b);
}

/// A text followed by different numbers is different.
proof fn suffixes_tell_apart(prefix: Seq<char>, a: u32, b: u32)
    requires
        a != b,
    ensures
        prefix + decimal_chars(a as nat) != prefix + decimal_chars(b as nat),
{
    let x = prefix + decimal_chars(a as nat);
    let y = prefix + decimal_chars(b as nat);
    if x == y {
        assert(x.skip(prefix.len() as int) =~= decimal_chars(a as nat));
        assert(y.skip(prefix.len() as int) =~= decimal_chars(b as nat));
        crate::text::numbers_are_told_apart(a as nat, b as nat);
    }
}

} // verus!
