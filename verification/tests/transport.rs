use hagstrom_core::error::Error;
use hagstrom_core::transport;
use hagstrom_core::transport::{
    flush, write_byte, write_large_packet, Operation, Transfer, BAUD_RATE, BYTE_DELAY_MS,
    CHUNK_DELAY_MS, CHUNK_SIZE, OPEN_TIMEOUT_MS,
};
use hagstrom_core::FLUSH;

fn packet_of(len: usize) -> Vec<u8> {
    (0..len).map(|i| (i % 251) as u8).collect()
}

fn written(schedule: &[Operation]) -> Vec<Vec<u8>> {
    let mut writes = Vec::new();
    for operation in schedule {
        if let Operation::Write(bytes) = operation {
            writes.push(bytes.clone());
        }
    }
    writes
}

fn pauses(schedule: &[Operation]) -> Vec<u64> {
    let mut pauses = Vec::new();
    for operation in schedule {
        if let Operation::Sleep(millis) = operation {
            pauses.push(*millis);
        }
    }
    pauses
}

#[test]
fn the_limits_of_the_line() {
    assert_eq!(CHUNK_SIZE, 16);
    assert_eq!(CHUNK_DELAY_MS, 100);
    assert_eq!(BYTE_DELAY_MS, 10);
    assert_eq!(BAUD_RATE, 19_200);
    assert_eq!(OPEN_TIMEOUT_MS, 10);
    assert_eq!(FLUSH, 0x38);
}

#[test]
fn small_packet_goes_out_in_one_write_then_the_callers_pause() {
    let packet = packet_of(5);
    assert_eq!(
        transport::write(packet.clone(), 250),
        vec![Operation::Write(packet), Operation::Sleep(250)]
    );
}

#[test]
fn sixteen_bytes_are_still_one_write() {
    let packet = packet_of(16);
    assert_eq!(
        transport::write(packet.clone(), 0),
        vec![Operation::Write(packet), Operation::Sleep(0)]
    );
}

#[test]
fn empty_packet_is_one_empty_write() {
    assert_eq!(transport::write(vec![], 30), vec![Operation::Write(vec![]), Operation::Sleep(30)]);
}

#[test]
fn seventeen_bytes_are_cut_in_two() {
    let packet = packet_of(17);
    assert_eq!(
        transport::write(packet.clone(), 5),
        vec![
            Operation::Write(packet[0..16].to_vec()),
            Operation::Sleep(100),
            Operation::Write(packet[16..17].to_vec()),
            Operation::Sleep(100),
            Operation::Sleep(5),
        ]
    );
}

#[test]
fn forty_bytes_are_cut_into_sixteen_sixteen_and_eight() {
    let packet = packet_of(40);
    let schedule = transport::write(packet.clone(), 500);
    let sizes: Vec<usize> = written(&schedule).iter().map(|chunk| chunk.len()).collect();
    assert_eq!(sizes, vec![16, 16, 8]);
    assert_eq!(
        schedule,
        vec![
            Operation::Write(packet[0..16].to_vec()),
            Operation::Sleep(100),
            Operation::Write(packet[16..32].to_vec()),
            Operation::Sleep(100),
            Operation::Write(packet[32..40].to_vec()),
            Operation::Sleep(100),
            Operation::Sleep(500),
        ]
    );
}

#[test]
fn two_of_the_pauses_of_forty_bytes_lie_between_chunks() {
    let schedule = transport::write(packet_of(40), 500);
    let last_write = schedule
        .iter()
        .rposition(|operation| matches!(operation, Operation::Write(_)))
        .unwrap();
    let between = pauses(&schedule[..last_write]);
    assert_eq!(between, vec![100, 100]);
    assert_eq!(pauses(&schedule[last_write..]), vec![100, 500]);
}

#[test]
fn chunk_pause_does_not_follow_the_callers_pause() {
    for post in [0u64, 1, 99, 100, 101, 10_000, u64::MAX] {
        let schedule = transport::write(packet_of(33), post);
        assert_eq!(pauses(&schedule), vec![100, 100, 100, post]);
    }
}

#[test]
fn thirty_two_bytes_are_two_full_chunks() {
    let packet = packet_of(32);
    assert_eq!(
        write_large_packet(packet.clone()),
        vec![
            Operation::Write(packet[0..16].to_vec()),
            Operation::Sleep(100),
            Operation::Write(packet[16..32].to_vec()),
            Operation::Sleep(100),
        ]
    );
}

#[test]
fn chunking_nothing_plans_nothing() {
    assert_eq!(write_large_packet(vec![]), vec![]);
}

#[test]
fn chunking_a_small_packet_is_one_chunk() {
    assert_eq!(
        write_large_packet(vec![1, 2, 3]),
        vec![Operation::Write(vec![1, 2, 3]), Operation::Sleep(100)]
    );
}

#[test]
fn the_writes_put_the_packet_on_the_line_byte_for_byte() {
    for len in 0..200 {
        let packet = packet_of(len);
        let schedule = transport::write(packet.clone(), 1);
        let line: Vec<u8> = written(&schedule).concat();
        assert_eq!(line, packet);
    }
}

#[test]
fn chunks_are_full_but_for_the_last() {
    for len in 17..200 {
        let chunks = written(&transport::write(packet_of(len), 1));
        assert_eq!(chunks.len(), (len + 15) / 16);
        let (last, full) = chunks.split_last().unwrap();
        assert!(full.iter().all(|chunk| chunk.len() == 16));
        assert_eq!(last.len(), len - 16 * full.len());
        assert!(1 <= last.len() && last.len() <= 16);
    }
}

#[test]
fn a_large_packet_blocks_for_a_chunk_pause_after_each_chunk() {
    for len in 17..200 {
        let schedule = transport::write(packet_of(len), 7);
        let chunks = (len as u64 + 15) / 16;
        assert_eq!(pauses(&schedule).iter().sum::<u64>(), 100 * chunks + 7);
    }
    for len in 0..=16 {
        assert_eq!(pauses(&transport::write(packet_of(len), 7)), vec![7]);
    }
}

#[test]
fn control_byte_is_written_alone_and_followed_by_ten_milliseconds() {
    assert_eq!(write_byte(0x41), vec![Operation::Write(vec![0x41]), Operation::Sleep(10)]);
    assert_eq!(write_byte(FLUSH), vec![Operation::Write(vec![0x38]), Operation::Sleep(10)]);
}

#[test]
fn flush_is_the_reserved_byte_and_no_pause() {
    assert_eq!(flush(), vec![Operation::Write(vec![0x38])]);
}

#[test]
fn transfer_hands_out_the_schedule_in_order() {
    let schedule = transport::write(packet_of(20), 3);
    let expected = transport::write(packet_of(20), 3);
    let mut transfer = Transfer::new(schedule);
    let mut seen = 0;
    assert_eq!(transfer.result(), None);
    while let Some(operation) = transfer.next() {
        assert_eq!(operation, &expected[seen]);
        seen += 1;
        transfer.report(true);
    }
    assert_eq!(seen, expected.len());
    assert_eq!(transfer.result(), Some(Ok(())));
}

#[test]
fn transfer_repeats_the_operation_until_it_is_reported() {
    let transfer = Transfer::new(write_byte(9));
    assert_eq!(transfer.next(), Some(&Operation::Write(vec![9])));
    assert_eq!(transfer.next(), Some(&Operation::Write(vec![9])));
}

#[test]
fn failed_write_ends_the_transfer_with_a_transport_error() {
    let mut transfer = Transfer::new(transport::write(packet_of(40), 3));
    assert!(matches!(transfer.next(), Some(Operation::Write(_))));
    transfer.report(true);
    assert_eq!(transfer.next(), Some(&Operation::Sleep(100)));
    transfer.report(true);
    assert!(matches!(transfer.next(), Some(Operation::Write(_))));
    transfer.report(false);
    assert_eq!(transfer.next(), None);
    assert_eq!(transfer.result(), Some(Err(Error::TransportError)));
}

#[test]
fn nothing_is_retried_after_a_failure() {
    let mut transfer = Transfer::new(flush());
    transfer.report(false);
    transfer.report(true);
    transfer.report(true);
    assert_eq!(transfer.next(), None);
    assert_eq!(transfer.result(), Some(Err(Error::TransportError)));
}

#[test]
fn reports_past_the_end_change_nothing() {
    let mut transfer = Transfer::new(flush());
    transfer.report(true);
    assert_eq!(transfer.result(), Some(Ok(())));
    transfer.report(false);
    assert_eq!(transfer.next(), None);
    assert_eq!(transfer.result(), Some(Ok(())));
}

#[test]
fn empty_schedule_is_finished_at_once() {
    let transfer = Transfer::new(vec![]);
    assert_eq!(transfer.next(), None);
    assert_eq!(transfer.result(), Some(Ok(())));
}
