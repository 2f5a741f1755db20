//! What is written as text, and what is read from it.

use vstd::prelude::*;

use crate::args::{MeasurementArgs, ProtocolArgs};
use crate::harness::{
    client_args, commands, exit_code, server_args, steps, Network, SetupStep, Shaping, StepView,
    Undo, UndoView,
};
use crate::privileges::{
    after_spaces, after_word, all_digits, decimal_value, effective_uid, first_word, is_digit, is_space,
    line_len, number, uids, word_len,
};
use crate::socket::SocketInfo;
use crate::text::{
    append_words, borrowed_texts, decimal, decimal_chars, join, labelled, texts, words,
};
use crate::transit::connection::Config;
use crate::transit::probe::Role;

verus! {

/// A number in decimal reads as that number, and starts with a zero only where it
/// is one.
proof fn decimals_read_as_numbers(n: nat)
    ensures
        all_digits(decimal_chars(n)),
        decimal_value(decimal_chars(n)) == n,
        n > 0 ==> decimal_chars(n)[0] != '0',
    decreases n,
{
    let s = decimal_chars(n);
    reveal_with_fuel(decimal_value, 2);
    if n >= 10 {
        decimals_read_as_numbers(n / 10);
        assert(s.drop_last() =~= decimal_chars(n / 10));
        assert forall|i: int| 0 <= i < s.len() implies is_digit(#[trigger] s[i]) by {
            if i < s.len() - 1 {
                assert(s[i] == s.drop_last()[i]);
            }
        }
        assert(s[0] == decimal_chars(n / 10)[0]);
    } else {
        assert(s.drop_last() =~= Seq::<char>::empty());
    }
}

/// What is written in decimal is read back as the same number, and has no zeros in
/// front.
pub proof fn numbers_are_read_back(n: u64, r: String)
    requires
        call_ensures(decimal, (n,), r),
    ensures
        all_digits(r@),
        decimal_value(r@) == n,
        r@.len() > 1 ==> r@[0] != '0',
        n <= u32::MAX ==> number(r@) == Some(n as u32),
{
    decimals_read_as_numbers(n as nat);
    if n == 0 {
        reveal_with_fuel(decimal_chars, 2);
    }
    assert(is_digit(r@[0]));
}

/// Texts are put together in order.
pub proof fn texts_are_put_together(
    a: &str,
    b: &str,
    ab: String,
    label: &str,
    n: u64,
    named: String,
    written: String,
)
    requires
        call_ensures(join, (a, b), ab),
        call_ensures(labelled, (label, n), named),
        call_ensures(decimal, (n,), written),
    ensures
        ab@ == a@ + b@,
        named@ == label@ + written@,
{
}

/// Lists of words hold the words that they are made of, in order.
pub proof fn words_are_kept_in_order(
    list: &[&str],
    made: Vec<String>,
    onto: &mut Vec<String>,
    more: Vec<String>,
)
    requires
        call_ensures(words, (list,), made),
        call_ensures(append_words, (onto, more), ()),
    ensures
        made@.len() == list@.len(),
        forall|i: int| 0 <= i < list@.len() ==> (#[trigger] made@[i])@ == list@[i]@,
        final(onto)@.len() == old(onto)@.len() + more@.len(),
        forall|i: int|
            0 <= i < old(onto)@.len() ==> (#[trigger] final(onto)@[i])@ == old(onto)@[i]@,
        forall|i: int|
            0 <= i < more@.len() ==> (#[trigger] final(onto)@[old(onto)@.len() + i])@
                == more@[i]@,
{
    assert(texts(made@).len() == borrowed_texts(list@).len());
    assert forall|i: int| 0 <= i < list@.len() implies (#[trigger] made@[i])@ == list@[i]@ by {
        assert(texts(made@)[i] == borrowed_texts(list@)[i]);
    }
    let all = texts(old(onto)@) + texts(more@);
    assert(texts(final(onto)@).len() == all.len());
    assert forall|i: int| 0 <= i < old(onto)@.len() implies (#[trigger] final(onto)@[i])@ == old(
        onto)@[i]@ by {
        assert(texts(final(onto)@)[i] == all[i]);
    }
    assert forall|i: int| 0 <= i < more@.len() implies (
    #[trigger] final(onto)@[old(onto)@.len() + i])@ == more@[i]@ by {
        assert(texts(final(onto)@)[old(onto)@.len() + i] == all[old(onto)@.len() + i]);
    }
}

/// A socket's settings are named one by one, each with its own value.
pub proof fn sockets_name_their_settings(
    info: &SocketInfo,
    r: String,
    send: String,
    recv: String,
)
    requires
        call_ensures(SocketInfo::to_text, (info,), r),
        call_ensures(decimal, (info.send_buffer as u64,), send),
        call_ensures(decimal, (info.recv_buffer as u64,), recv),
    ensures
        r@ == "sndbuf="@ + send@ + " rcvbuf="@ + recv@ + " cc="@ + info.congestion_control@,
{
}

/// The settings of a measurement are given in seconds, each behind its own option.
pub proof fn measurements_are_given_by_option(
    args: MeasurementArgs,
    r: Vec<String>,
    duration: String,
    ramp: String,
)
    requires
        call_ensures(MeasurementArgs::to_argv, (args,), r),
        call_ensures(decimal, (args.duration,), duration),
        call_ensures(decimal, (args.ramp,), ramp),
    ensures
        texts(r@) == seq!["--duration"@, duration@, "--ramp"@, ramp@],
{
}

/// The settings of the protocol are given each behind its own option, as they are;
/// the send buffer only where it is pinned.
pub proof fn protocols_are_given_by_option(
    args: &ProtocolArgs,
    r: Vec<String>,
    window: String,
    max_window: String,
    re_grant: String,
    per_rtt: String,
    filter: String,
)
    requires
        call_ensures(ProtocolArgs::to_argv, (args,), r),
        call_ensures(decimal, (args.window as u64,), window),
        call_ensures(decimal, (args.max_window as u64,), max_window),
        call_ensures(decimal, (args.re_grant as u64,), re_grant),
        call_ensures(decimal, (args.re_grants_per_rtt as u64,), per_rtt),
        call_ensures(decimal, (args.delay_filter as u64,), filter),
    ensures
        ({
            let argv = texts(r@);
            &&& argv.len() == if args.send_buffer is Some {
                22int
            } else {
                20int
            }
            &&& argv[0] == "--mode"@ && argv[1] == if args.mode is Raw {
                "raw"@
            } else {
                "transit"@
            }
            &&& argv[2] == "--window"@ && argv[3] == window@
            &&& argv[4] == "--max-window"@ && argv[5] == max_window@
            &&& argv[6] == "--re-grant"@ && argv[7] == re_grant@
            &&& argv[8] == "--re-grants-per-rtt"@ && argv[9] == per_rtt@
            &&& argv[10] == "--target-queue-ms"@ && argv[11] == args.target_queue_ms@
            &&& argv[12] == "--target-queue-rtts"@ && argv[13] == args.target_queue_rtts@
            &&& argv[14] == "--ledbat-gain"@ && argv[15] == args.ledbat_gain@
            &&& argv[16] == "--delay-filter"@ && argv[17] == filter@
            &&& argv[18] == "--probe-spacing"@ && argv[19] == args.probe_spacing@
            &&& args.send_buffer matches Some(bytes) ==> argv[20] == "--send-buffer"@ && all_digits(
                argv[21],
            ) && decimal_value(argv[21]) == bytes
        }),
{
    if let Some(bytes) = args.send_buffer {
        decimals_read_as_numbers(bytes as nat);
    }
}

/// A log names every setting with its value.
pub proof fn protocols_are_described_in_full(
    args: &ProtocolArgs,
    r: String,
    window: String,
    max_window: String,
    re_grant: String,
    per_rtt: String,
    filter: String,
    buffer: String,
)
    requires
        call_ensures(ProtocolArgs::describe, (args,), r),
        call_ensures(decimal, (args.window as u64,), window),
        call_ensures(decimal, (args.max_window as u64,), max_window),
        call_ensures(decimal, (args.re_grant as u64,), re_grant),
        call_ensures(decimal, (args.re_grants_per_rtt as u64,), per_rtt),
        call_ensures(decimal, (args.delay_filter as u64,), filter),
        args.send_buffer matches Some(bytes) ==> call_ensures(decimal, (bytes as u64,), buffer),
    ensures
        r@ == "mode="@ + (if args.mode is Raw {
            "Raw"@
        } else {
            "Transit"@
        }) + " window="@ + window@ + " max_window="@ + max_window@ + " re_grant="@ + re_grant@
            + " re_grants_per_rtt="@ + per_rtt@ + " target_queue_ms="@ + args.target_queue_ms@
            + " target_queue_rtts="@ + args.target_queue_rtts@ + " ledbat_gain="@
            + args.ledbat_gain@ + " delay_filter="@ + filter@ + " probe_spacing="@
            + args.probe_spacing@ + " send_buffer="@ + (if args.send_buffer is Some {
            "Some("@ + buffer@ + ")"@
        } else {
            "None"@
        }),
{
}

/// A connection is configured as it was asked for, within bounds that make sense:
/// its limit is not below its window, and neither a re-grant nor a filter is empty.
pub proof fn protocols_configure_connections(args: &ProtocolArgs, role: Role, r: Config)
    requires
        call_ensures(ProtocolArgs::config, (args, role), r),
    ensures
        r.role == role,
        r.sizing.initial == args.window,
        args.max_window >= args.window ==> r.sizing.max == args.max_window,
        args.max_window < args.window ==> r.sizing.max == args.window,
        args.re_grant > 0 ==> r.sizing.re_grant == args.re_grant,
        args.re_grant == 0 ==> r.sizing.re_grant == 1,
        r.sizing.re_grants_per_rtt == args.re_grants_per_rtt,
        args.delay_filter > 0 ==> r.sizing.delay_filter == args.delay_filter,
        args.delay_filter == 0 ==> r.sizing.delay_filter == 1,
{
}

/// Both ends are started on the server's address with the same protocol, and the
/// client with the measurement behind it.
pub proof fn ends_are_started_alike(
    protocol: &ProtocolArgs,
    measurement: MeasurementArgs,
    server: Vec<String>,
    client: Vec<String>,
    shared: Vec<String>,
    measured: Vec<String>,
)
    requires
        call_ensures(server_args, (protocol,), server),
        call_ensures(client_args, (protocol, measurement), client),
        call_ensures(ProtocolArgs::to_argv, (protocol,), shared),
        call_ensures(MeasurementArgs::to_argv, (measurement,), measured),
    ensures
        texts(server@) == seq!["server"@, "--addr"@, "10.200.0.2:9000"@] + texts(shared@),
        texts(client@) == seq!["client"@, "--addr"@, "10.200.0.2:9000"@] + texts(shared@) + texts(
            measured@,
        ),
{
}

/// A run exits with 0 where both ends succeeded, with 130 where it was cut short,
/// and with 1 otherwise.
pub proof fn runs_exit_with_their_outcome(client: Option<bool>, server: Option<bool>, r: i32)
    requires
        call_ensures(exit_code, (client, server), r),
    ensures
        match (client, server) {
            (Some(true), Some(true)) => r == 0,
            (Some(_), Some(_)) => r == 1,
            _ => r == 130,
        },
{
}

/// A network is named after the process that it belongs to, and has nothing to tear
/// down yet.
pub proof fn networks_are_named_after_their_process(pid: u32, r: Network, id: String)
    requires
        call_ensures(Network::new, (pid,), r),
        call_ensures(decimal, (pid as u64,), id),
    ensures
        r.client_ns@ == "transit-client-"@ + id@,
        r.server_ns@ == "transit-server-"@ + id@,
        r.client_dev@ == "vc"@ + id@,
        r.server_dev@ == "vs"@ + id@,
        r.teardown@.len() == 0,
{
}

/// The end of a link, and where it stands.
pub ghost struct End {
    pub namespace: Seq<char>,
    pub device: Seq<char>,
    pub address: Seq<char>,
}

/// Whether six steps from `at` on bring up an end of the link: its address, itself,
/// its loopback, the room for its socket buffers, and its impairment. None of them
/// has to be undone.
pub open spec fn brings_up(plan: Seq<StepView>, at: int, end: End, link: Shaping) -> bool {
    &&& forall|i: int| at <= i < at + 6 ==> (#[trigger] plan[i]).undo is Keep
    &&& plan[at].command == seq![
        "ip"@,
        "-n"@,
        end.namespace,
        "addr"@,
        "add"@,
        end.address + "/24"@,
        "dev"@,
        end.device,
    ]
    &&& plan[at + 1].command == seq![
        "ip"@,
        "-n"@,
        end.namespace,
        "link"@,
        "set"@,
        "dev"@,
        end.device,
        "up"@,
    ]
    &&& plan[at + 2].command == seq![
        "ip"@,
        "-n"@,
        end.namespace,
        "link"@,
        "set"@,
        "dev"@,
        "lo"@,
        "up"@,
    ]
    &&& plan[at + 3].command.last() == "net.ipv4.tcp_wmem=4096 131072 67108864"@
    &&& plan[at + 4].command.last() == "net.ipv4.tcp_rmem=4096 131072 67108864"@
    &&& forall|i: int|
        at + 3 <= i < at + 6 ==> (#[trigger] plan[i]).command.take(4) == seq![
            "ip"@,
            "netns"@,
            "exec"@,
            end.namespace,
        ]
    &&& ({
        let shaping = plan[at + 5].command;
        &&& shaping[8] == end.device
        &&& shaping[13] == "delay"@ && shaping[14] == decimal_chars(link.delay as nat) + "ms"@
        &&& shaping[15] == "rate"@ && shaping[16] == link.bandwidth@ + "mbit"@
        &&& match link.loss {
            Some(loss) => shaping.len() == 19 && shaping[17] == "loss"@ && shaping[18] == loss@
                + "%"@,
            None => shaping.len() == 17,
        }
    })
}

/// The setup makes two namespaces and a pair, moves an end of the pair into each,
/// and brings the ends up. What it makes is undone again: each namespace by its
/// deletion, the pair by that of an end that is not in a namespace yet.
pub proof fn setups_join_two_namespaces(network: &Network, link: &Shaping, r: Vec<SetupStep>)
    requires
        call_ensures(Network::set_up, (network, link), r),
    ensures
        ({
            let plan = steps(r@);
            let client = End {
                namespace: network.client_ns@,
                device: network.client_dev@,
                address: "10.200.0.1"@,
            };
            let server = End {
                namespace: network.server_ns@,
                device: network.server_dev@,
                address: "10.200.0.2"@,
            };
            &&& plan.len() == 17
            &&& plan[0].command == seq!["ip"@, "netns"@, "add"@, client.namespace]
            &&& plan[0].undo == UndoView::Add(seq!["ip"@, "netns"@, "del"@, client.namespace])
            &&& plan[1].command == seq!["ip"@, "netns"@, "add"@, server.namespace]
            &&& plan[1].undo == UndoView::Add(seq!["ip"@, "netns"@, "del"@, server.namespace])
            &&& plan[2].command.take(4) == seq!["ip"@, "link"@, "add"@, client.device]
            &&& plan[2].command.skip(4) == seq![
                "type"@,
                "veth"@,
                "peer"@,
                "name"@,
                server.device,
            ]
            &&& plan[2].undo == UndoView::Add(seq!["ip"@, "link"@, "del"@, client.device])
            &&& plan[3].command == seq![
                "ip"@,
                "link"@,
                "set"@,
                client.device,
                "netns"@,
                client.namespace,
            ]
            &&& plan[3].undo == UndoView::Replace(seq!["ip"@, "link"@, "del"@, server.device])
            &&& plan[4].command == seq![
                "ip"@,
                "link"@,
                "set"@,
                server.device,
                "netns"@,
                server.namespace,
            ]
            &&& plan[4].undo is Drop
            &&& brings_up(plan, 5, client, *link)
            &&& brings_up(plan, 11, server, *link)
        }),
{
    let plan = steps(r@);
    assert(plan[2].command.take(4) =~= seq!["ip"@, "link"@, "add"@, network.client_dev@]);
    assert(plan[2].command.skip(4) =~= seq![
        "type"@,
        "veth"@,
        "peer"@,
        "name"@,
        network.server_dev@,
    ]);
    assert(plan[8].command.take(4) =~= seq!["ip"@, "netns"@, "exec"@, network.client_ns@]);
    assert(plan[9].command.take(4) =~= seq!["ip"@, "netns"@, "exec"@, network.client_ns@]);
    assert(plan[10].command.take(4) =~= seq!["ip"@, "netns"@, "exec"@, network.client_ns@]);
    assert(plan[14].command.take(4) =~= seq!["ip"@, "netns"@, "exec"@, network.server_ns@]);
    assert(plan[15].command.take(4) =~= seq!["ip"@, "netns"@, "exec"@, network.server_ns@]);
    assert(plan[16].command.take(4) =~= seq!["ip"@, "netns"@, "exec"@, network.server_ns@]);
}

/// What undoes a step is kept behind what undoes those before it, takes the place
/// of the last, or makes that unnecessary.
pub proof fn teardowns_are_recorded(network: &mut Network, undo: Undo)
    requires
        undo is Replace || undo is Drop ==> network.teardown@.len() > 0,
        call_ensures(Network::record, (network, undo), ()),
    ensures
        ({
            let before = commands(old(network).teardown@);
            let after = commands(final(network).teardown@);
            match undo {
                Undo::Keep => after == before,
                Undo::Add(command) => after == before + seq![texts(command@)],
                Undo::Replace(command) => before.len() > 0 && after == before.drop_last() + seq![
                    texts(command@),
                ],
                Undo::Drop => before.len() > 0 && after == before.drop_last(),
            }
        }),
{
    let before = commands(old(network).teardown@);
    match undo {
        Undo::Add(command) => {
            assert(before + seq![texts(command@)] =~= before.push(texts(command@)));
        },
        Undo::Replace(command) => {
            assert(before.drop_last() + seq![texts(command@)] =~= before.drop_last().push(
                texts(command@),
            ));
        },
        _ => {},
    }
}

/// A teardown is taken once, and undoes last what was done first.
pub proof fn teardowns_run_backwards(
    network: &mut Network,
    r: Vec<Vec<String>>,
    second: &mut Network,
    again: Vec<Vec<String>>,
)
    requires
        *second == *final(network),
        call_ensures(Network::take_teardown, (network,), r),
        call_ensures(Network::take_teardown, (second,), again),
    ensures
        r@.len() == old(network).teardown@.len(),
        forall|i: int|
            0 <= i < r@.len() ==> #[trigger] r@[i] == old(network).teardown@[r@.len() - 1 - i],
        again@.len() == 0,
{
}

/// The characters that separate words, by number: those that Unicode gives the
/// property `White_Space`.
pub open spec fn white_space() -> Seq<u32> {
    seq![
        9u32, 10, 11, 12, 13, 32, 133, 160, 5760, 8192, 8193, 8194, 8195, 8196, 8197, 8198, 8199,
        8200, 8201, 8202, 8232, 8233, 8239, 8287, 12288,
    ]
}

/// Words are separated by white space and nothing else.
pub proof fn words_are_separated_by_white_space(c: char)
    ensures
        is_space(c) <==> white_space().contains(c as u32),
{
    let list = white_space();
    if is_space(c) {
        let n = c as u32;
        let at = if n <= 13 {
            n - 9
        } else if n == 32 {
            5
        } else if n == 133 {
            6
        } else if n == 160 {
            7
        } else if n == 5760 {
            8
        } else if n <= 8202 {
            9 + n - 8192
        } else if n == 8232 {
            20
        } else if n == 8233 {
            21
        } else if n == 8239 {
            22
        } else if n == 8287 {
            23
        } else {
            24
        };
        assert(list[at] == n);
    }
}

/// Whether there is no line break in a text.
pub open spec fn on_one_line(s: Seq<char>) -> bool {
    forall|i: int| 0 <= i < s.len() ==> #[trigger] s[i] != '\n'
}

/// Whether a text is one word.
pub open spec fn is_word(s: Seq<char>) -> bool {
    s.len() > 0 && forall|i: int| 0 <= i < s.len() ==> !is_space(#[trigger] s[i])
}

/// Whether a text is all space, with some to it.
pub open spec fn is_gap(s: Seq<char>) -> bool {
    s.len() > 0 && forall|i: int| 0 <= i < s.len() ==> is_space(#[trigger] s[i])
}

proof fn lines_end_at_the_break(line: Seq<char>, rest: Seq<char>)
    requires
        on_one_line(line),
        rest.len() == 0 || rest[0] == '\n',
    ensures
        line_len(line + rest) == line.len(),
    decreases line.len(),
{
    let s = line + rest;
    if line.len() > 0 {
        assert(s[0] == line[0]);
        assert(s.skip(1) =~= line.skip(1) + rest);
        lines_end_at_the_break(line.skip(1), rest);
    } else if rest.len() > 0 {
        assert(s[0] == rest[0]);
    }
}

proof fn gaps_are_skipped(gap: Seq<char>, rest: Seq<char>)
    requires
        gap.len() == 0 || is_gap(gap),
        rest.len() == 0 || !is_space(rest[0]),
    ensures
        after_spaces(gap + rest) == rest,
    decreases gap.len(),
{
    let s = gap + rest;
    if gap.len() > 0 {
        assert(s[0] == gap[0]);
        assert(s.skip(1) =~= gap.skip(1) + rest);
        gaps_are_skipped(gap.skip(1), rest);
    } else {
        assert(s =~= rest);
    }
}

proof fn words_end_at_the_gap(word: Seq<char>, rest: Seq<char>)
    requires
        word.len() == 0 || is_word(word),
        rest.len() == 0 || is_space(rest[0]),
    ensures
        word_len(word + rest) == word.len(),
    decreases word.len(),
{
    let s = word + rest;
    if word.len() > 0 {
        assert(s[0] == word[0]);
        assert(s.skip(1) =~= word.skip(1) + rest);
        words_end_at_the_gap(word.skip(1), rest);
    } else if rest.len() > 0 {
        assert(s[0] == rest[0]);
    }
}

proof fn parts_on_one_line(a: Seq<char>, b: Seq<char>)
    requires
        on_one_line(a),
        on_one_line(b),
    ensures
        on_one_line(a + b),
{
    let ab = a + b;
    assert forall|i: int| 0 <= i < ab.len() implies #[trigger] ab[i] != '\n' by {
        if i < a.len() {
            assert(ab[i] == a[i]);
        } else {
            assert(ab[i] == b[i - a.len()]);
        }
    }
}

proof fn second_words_are_found(
    gap: Seq<char>,
    first: Seq<char>,
    between: Seq<char>,
    second: Seq<char>,
    others: Seq<char>,
)
    requires
        gap.len() == 0 || is_gap(gap),
        is_word(first),
        is_gap(between),
        is_word(second),
        others.len() == 0 || is_space(others[0]),
    ensures
        first_word(after_word(gap + first + between + second + others)) == second,
{
    let from_second = second + others;
    let behind_first = between + from_second;
    let from_first = first + behind_first;
    let listed = gap + first + between + second + others;
    assert(listed =~= gap + from_first);
    assert(from_first[0] == first[0]);
    gaps_are_skipped(gap, from_first);
    assert(behind_first[0] == between[0]);
    words_end_at_the_gap(first, behind_first);
    assert(from_first.skip(first.len() as int) =~= behind_first);
    assert(after_word(listed) == behind_first);
    assert(from_second[0] == second[0]);
    gaps_are_skipped(between, from_second);
    words_end_at_the_gap(second, others);
    assert(from_second.take(second.len() as int) =~= second);
}

/// The effective user ID is the second word behind `Uid:` on its line, whatever
/// the first is and whatever follows.
pub proof fn second_user_ids_are_effective(
    status: &str,
    gap: Seq<char>,
    first: Seq<char>,
    between: Seq<char>,
    effective: Seq<char>,
    others: Seq<char>,
    rest: Seq<char>,
    r: Option<u32>,
)
    requires
        status@ == seq!['U', 'i', 'd', ':'] + gap + first + between + effective + others + rest,
        on_one_line(gap) && on_one_line(first) && on_one_line(between) && on_one_line(effective)
            && on_one_line(others),
        gap.len() == 0 || is_gap(gap),
        is_word(first),
        is_gap(between),
        is_word(effective),
        others.len() == 0 || is_space(others[0]),
        rest.len() == 0 || rest[0] == '\n',
        call_ensures(effective_uid, (status,), r),
    ensures
        all_digits(effective) && decimal_value(effective) <= u32::MAX ==> r == Some(
            decimal_value(effective) as u32,
        ),
        !(effective[0] == '+') && !(all_digits(effective) && decimal_value(effective) <= u32::MAX)
            ==> r is None,
{
    let label = seq!['U', 'i', 'd', ':'];
    let listed = gap + first + between + effective + others;
    let line = label + listed;
    let s = line + rest;
    assert(status@ =~= s);
    parts_on_one_line(gap, first);
    parts_on_one_line(gap + first, between);
    parts_on_one_line(gap + first + between, effective);
    parts_on_one_line(gap + first + between + effective, others);
    parts_on_one_line(label, listed);
    lines_end_at_the_break(line, rest);
    assert(s.take(line.len() as int) =~= line);
    assert(line.skip(4) =~= listed);
    assert(uids(s) == Some(listed));
    second_words_are_found(gap, first, between, effective, others);
    assert(r == number(effective));
    if all_digits(effective) {
        assert(is_digit(effective[0]));
    }
}

/// Lines that do not list user IDs are passed over.
pub proof fn other_lines_are_passed_over(
    status: &str,
    line: Seq<char>,
    below: &str,
    r: Option<u32>,
    without: Option<u32>,
)
    requires
        status@ == line + seq!['\n'] + below@,
        on_one_line(line),
        !(line.len() >= 4 && line.take(4) == seq!['U', 'i', 'd', ':']),
        call_ensures(effective_uid, (status,), r),
        call_ensures(effective_uid, (below,), without),
    ensures
        r == without,
{
    let s = status@;
    let rest = seq!['\n'] + below@;
    assert(s =~= line + rest);
    lines_end_at_the_break(line, rest);
    assert(s.take(line.len() as int) =~= line);
    assert(s.skip(line.len() as int + 1) =~= below@);
    if line.len() >= 4 && line[0] == 'U' && line[1] == 'i' && line[2] == 'd' && line[3] == ':' {
        assert(line.take(4) =~= seq!['U', 'i', 'd', ':']);
    }
}

/// A status without a line that lists user IDs says nothing.
pub proof fn nothing_is_said_without_user_ids(status: &str, r: Option<u32>)
    requires
        on_one_line(status@),
        !(status@.len() >= 4 && status@.take(4) == seq!['U', 'i', 'd', ':']),
        call_ensures(effective_uid, (status,), r),
    ensures
        r is None,
{
    let s = status@;
    assert(s + Seq::<char>::empty() =~= s);
    lines_end_at_the_break(s, Seq::empty());
    assert(s.take(s.len() as int) =~= s);
    if s.len() >= 4 && s[0] == 'U' && s[1] == 'i' && s[2] == 'd' && s[3] == ':' {
        assert(s.take(4) =~= seq!['U', 'i', 'd', ':']);
    }
}

} // verus!
