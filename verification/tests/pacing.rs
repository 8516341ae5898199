use analyzer::experiments::packet_flood::{
    calculate_sending_interval_ns, run, PacerConfigError, PacerRunError, PacketFloodArgs,
};
use analyzer::collector::CancelToken;
use analyzer::frame::{build_eth_frame, build_frame_batch, swap_l4_src_dest, IPPROTO_TCP, IPPROTO_UDP};
use analyzer::pacer::{FrameSink, PacedSender, SendError, BURST_CAP};

fn flood_args() -> PacketFloodArgs {
    PacketFloodArgs {
        count: None,
        freq: None,
        interval_ns: None,
        eviction_ns: 10_000_000_000,
        runtime_sec: None,
        nolimit: false,
    }
}

#[test]
fn rate_accuracy_hundred_packets_in_hundred_ms() {
    // interval 1ms, runtime 100ms: exactly 100 packets, tagged 0..100 with
    // no duplicate and no gap.
    let interval: u64 = 1_000_000;
    let mut pacer = PacedSender::new(0, interval);
    let mut tags: Vec<u64> = Vec::new();
    // wake every 250us of simulated time, closing at the 100ms mark
    let mut now: u64 = 0;
    while now <= 100_000_000 {
        let (first, cnt) = pacer.on_wake(now);
        assert_eq!(first, tags.len() as u64);
        for k in 0..cnt {
            tags.push(first + k);
        }
        now += 250_000;
    }
    assert_eq!(pacer.sent_total(), 100);
    let expected: Vec<u64> = (0..100).collect();
    assert_eq!(tags, expected);
}

#[test]
fn stall_recovery_is_capped_and_converges() {
    let interval: u64 = 1_000_000;
    let mut pacer = PacedSender::new(0, interval);
    let (_, c0) = pacer.on_wake(0);
    assert_eq!(c0, 0);
    // a stall of five intervals: the next wake sends the five due packets
    let (f1, c1) = pacer.on_wake(5 * interval);
    assert_eq!((f1, c1), (0, 5));
    assert!(c1 <= BURST_CAP);
    // and the schedule is back in steady state at once
    let (_, c2) = pacer.on_wake(5 * interval);
    assert_eq!(c2, 0);
}

#[test]
fn giant_stall_is_bounded_by_burst_cap() {
    let mut pacer = PacedSender::new(0, 1);
    // with a one-nanosecond interval, a one-second stall owes a billion
    // packets; one wake hands out no more than the cap
    let (_, cnt) = pacer.on_wake(1_000_000_000);
    assert_eq!(cnt, BURST_CAP);
}

#[test]
fn ahead_of_schedule_waits_until_next_due_instant() {
    let mut pacer = PacedSender::new(0, 1_000_000);
    let (_, sent) = pacer.on_wake(3_000_000);
    assert_eq!(sent, 3);
    // the three sent packets cover the schedule up to the 3ms mark: before
    // it the sender is ahead and waits, from it on it is not
    assert_eq!(pacer.ahead_ns(2_500_000), Some(500_000));
    assert_eq!(pacer.ahead_ns(3_000_000), None);
}

#[test]
fn interval_from_count_against_eviction_window() {
    let mut args = flood_args();
    args.count = Some(20);
    assert_eq!(calculate_sending_interval_ns(&args), Ok(500_000_000));
    args.count = Some(0);
    assert_eq!(calculate_sending_interval_ns(&args), Err(PacerConfigError::UnusableRate));
}

#[test]
fn interval_selection_order_and_errors() {
    let mut args = flood_args();
    args.nolimit = true;
    args.count = Some(20);
    assert_eq!(calculate_sending_interval_ns(&args), Ok(1));

    let mut args = flood_args();
    args.interval_ns = Some(250);
    assert_eq!(calculate_sending_interval_ns(&args), Ok(250));
    args.interval_ns = Some(0);
    assert_eq!(calculate_sending_interval_ns(&args), Err(PacerConfigError::UnusableRate));

    let mut args = flood_args();
    args.freq = Some(1000);
    assert_eq!(calculate_sending_interval_ns(&args), Ok(1_000_000));
    args.freq = Some(2_000_000_000);
    assert_eq!(calculate_sending_interval_ns(&args), Err(PacerConfigError::UnusableRate));

    assert_eq!(calculate_sending_interval_ns(&flood_args()), Err(PacerConfigError::NoRateGiven));
}

#[test]
fn frame_carries_tag_in_source_field() {
    let f = build_eth_frame(0x0102030405);
    assert_eq!(
        f,
        vec![2, 2, 3, 4, 5, 6, 2, 0x05, 0x04, 0x03, 0x02, 0x01, 8, 0, 0, 0]
    );
}

#[test]
fn frame_batch_tags_are_consecutive() {
    let fs = build_frame_batch(1000, 3);
    assert_eq!(fs.len(), 3);
    assert_eq!(fs[0], build_eth_frame(1000));
    assert_eq!(fs[1], build_eth_frame(1001));
    assert_eq!(fs[2], build_eth_frame(1002));
    assert_ne!(fs[0], fs[1]);
}

#[test]
fn udp_ports_are_swapped_others_left_alone() {
    let mut udp = vec![1u8, 2, 3, 4, 5, 6, 7, 8];
    swap_l4_src_dest(IPPROTO_UDP, &mut udp);
    assert_eq!(udp, vec![3, 4, 1, 2, 5, 6, 7, 8]);

    let mut tcp = vec![1u8, 2, 3, 4, 5, 6, 7, 8];
    swap_l4_src_dest(IPPROTO_TCP, &mut tcp);
    assert_eq!(tcp, vec![1, 2, 3, 4, 5, 6, 7, 8]);

    let mut short = vec![1u8, 2, 3];
    swap_l4_src_dest(IPPROTO_UDP, &mut short);
    assert_eq!(short, vec![1, 2, 3]);
}

struct CollectingSink {
    frames: Vec<Vec<u8>>,
}

impl FrameSink for CollectingSink {
    fn send_batch(&mut self, frames: &Vec<Vec<u8>>) -> Result<(), SendError> {
        for f in frames {
            self.frames.push(f.clone());
        }
        Ok(())
    }
}

struct WakeBudget {
    left: u32,
}

impl CancelToken for WakeBudget {
    fn is_cancelled(&self) -> bool {
        self.left == 0
    }

    fn wait_cancelled_ns(&mut self, _ns: u64) -> bool {
        if self.left > 0 {
            self.left -= 1;
        }
        self.left == 0
    }
}

#[test]
fn paced_run_hands_every_sent_frame_to_the_sink() {
    let mut args = flood_args();
    args.interval_ns = Some(1);
    let mut token = WakeBudget { left: 50 };
    let mut sink = CollectingSink { frames: Vec::new() };
    let sent = run(&args, &mut token, &mut sink, 4).unwrap();
    assert_eq!(sink.frames.len() as u64, sent);
    assert!(sent > 0);
    assert_eq!(sink.frames[0], build_eth_frame(0));
}

struct RefusingSink {}

impl FrameSink for RefusingSink {
    fn send_batch(&mut self, _frames: &Vec<Vec<u8>>) -> Result<(), SendError> {
        Err(SendError)
    }
}

#[test]
fn paced_run_reports_config_and_send_failures() {
    // no rate parameter: the run never starts
    let mut token = WakeBudget { left: 10 };
    let mut sink = CollectingSink { frames: Vec::new() };
    assert_eq!(
        run(&flood_args(), &mut token, &mut sink, 10),
        Err(PacerRunError::Config(PacerConfigError::NoRateGiven))
    );
    assert_eq!(sink.frames.len(), 0);

    // a failed transmission stops the run: the schedule bookkeeping already
    // counted the packets as sent
    let mut args = flood_args();
    args.nolimit = true;
    let mut token = WakeBudget { left: 1000 };
    let mut refusing = RefusingSink {};
    assert_eq!(run(&args, &mut token, &mut refusing, 1000), Err(PacerRunError::SendFailed));
}
