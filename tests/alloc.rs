use musb::alloc_endpoint::{
    alloc_endpoint, fifo_partition, new_endpoint_table, Direction, EndpointAllocError,
    EndpointType, FifoPool,
};
use musb::info::{EpDirection, EpInfo};

fn uniform(n: usize, mps: u16) -> Vec<EpInfo> {
    (0..n)
        .map(|_| EpInfo { ep_direction: EpDirection::RXTX, max_packet_size: mps })
        .collect()
}

#[test]
fn control_then_bulk_in_takes_first_free_index() {
    let infos = uniform(8, 64);
    let mut table = new_endpoint_table(8);
    let mut pool = FifoPool::Fixed;
    let r = alloc_endpoint(&mut table, &infos, &mut pool, EndpointType::Control, Some(0), Direction::Out, 64);
    assert_eq!(r, Ok(0));
    let r = alloc_endpoint(&mut table, &infos, &mut pool, EndpointType::Control, Some(0), Direction::In, 64);
    assert_eq!(r, Ok(0));
    assert!(table[0].used_tx && table[0].used_rx);
    let r = alloc_endpoint(&mut table, &infos, &mut pool, EndpointType::Bulk, None, Direction::In, 64);
    assert_eq!(r, Ok(1));
    assert!(table[1].used_tx);
    assert!(!table[1].used_rx);
    assert_eq!(table[1].ep_conf.tx_max_packet_size, 64);
    assert_eq!(table[1].ep_conf.ep_type, EndpointType::Bulk);
}

#[test]
fn packet_larger_than_fixed_fifo_is_refused() {
    let infos = uniform(8, 8);
    let mut table = new_endpoint_table(8);
    let mut pool = FifoPool::Fixed;
    let before = table.clone();
    let r = alloc_endpoint(&mut table, &infos, &mut pool, EndpointType::Bulk, Some(1), Direction::In, 9);
    assert_eq!(r, Err(EndpointAllocError::MaxPacketSizeBiggerThanEpFifoSize));
    assert_eq!(table, before);
    // By scan no index fits.
    let r = alloc_endpoint(&mut table, &infos, &mut pool, EndpointType::Bulk, None, Direction::In, 9);
    assert_eq!(r, Err(EndpointAllocError::EndpointOverflow));
}

#[test]
fn same_index_and_direction_is_never_claimed_twice() {
    let infos = uniform(3, 64);
    let mut table = new_endpoint_table(3);
    let mut pool = FifoPool::Fixed;
    let a = alloc_endpoint(&mut table, &infos, &mut pool, EndpointType::Interrupt, None, Direction::In, 16);
    let b = alloc_endpoint(&mut table, &infos, &mut pool, EndpointType::Interrupt, None, Direction::In, 16);
    let c = alloc_endpoint(&mut table, &infos, &mut pool, EndpointType::Interrupt, None, Direction::In, 16);
    assert_eq!(a, Ok(1));
    assert_eq!(b, Ok(2));
    assert_eq!(c, Err(EndpointAllocError::EndpointOverflow));
    // The opposite direction of an interrupt endpoint can share the index.
    let d = alloc_endpoint(&mut table, &infos, &mut pool, EndpointType::Interrupt, None, Direction::Out, 16);
    assert_eq!(d, Ok(1));
    let e = alloc_endpoint(&mut table, &infos, &mut pool, EndpointType::Interrupt, Some(1), Direction::In, 16);
    assert_eq!(e, Err(EndpointAllocError::EpUsed));
    // Index 0 stays available.
    let f = alloc_endpoint(&mut table, &infos, &mut pool, EndpointType::Control, Some(0), Direction::In, 64);
    assert_eq!(f, Ok(0));
}

#[test]
fn bulk_never_shares_an_index() {
    let infos = uniform(4, 64);
    let mut table = new_endpoint_table(4);
    let mut pool = FifoPool::Fixed;
    assert_eq!(
        alloc_endpoint(&mut table, &infos, &mut pool, EndpointType::Interrupt, Some(1), Direction::Out, 8),
        Ok(1)
    );
    assert_eq!(
        alloc_endpoint(&mut table, &infos, &mut pool, EndpointType::Bulk, Some(1), Direction::In, 64),
        Err(EndpointAllocError::EpUsed)
    );
    assert_eq!(
        alloc_endpoint(&mut table, &infos, &mut pool, EndpointType::Bulk, Some(2), Direction::Out, 64),
        Ok(2)
    );
    assert_eq!(
        alloc_endpoint(&mut table, &infos, &mut pool, EndpointType::Bulk, Some(2), Direction::In, 64),
        Err(EndpointAllocError::EpUsed)
    );
    assert_eq!(
        alloc_endpoint(&mut table, &infos, &mut pool, EndpointType::Bulk, None, Direction::In, 64),
        Ok(3)
    );
}

#[test]
fn index_out_of_range_overflows() {
    let infos = uniform(4, 64);
    let mut table = new_endpoint_table(4);
    let mut pool = FifoPool::Fixed;
    assert_eq!(
        alloc_endpoint(&mut table, &infos, &mut pool, EndpointType::Bulk, Some(4), Direction::In, 8),
        Err(EndpointAllocError::EndpointOverflow)
    );
}

#[test]
fn direction_restricted_endpoint() {
    let infos = vec![
        EpInfo { ep_direction: EpDirection::RXTX, max_packet_size: 64 },
        EpInfo { ep_direction: EpDirection::RX, max_packet_size: 64 },
        EpInfo { ep_direction: EpDirection::TX, max_packet_size: 64 },
    ];
    let mut table = new_endpoint_table(3);
    let mut pool = FifoPool::Fixed;
    assert_eq!(
        alloc_endpoint(&mut table, &infos, &mut pool, EndpointType::Bulk, Some(1), Direction::In, 8),
        Err(EndpointAllocError::EpDirNotSupported)
    );
    assert_eq!(
        alloc_endpoint(&mut table, &infos, &mut pool, EndpointType::Bulk, None, Direction::In, 8),
        Ok(2)
    );
    assert_eq!(
        alloc_endpoint(&mut table, &infos, &mut pool, EndpointType::Bulk, None, Direction::Out, 8),
        Ok(1)
    );
}

#[test]
fn fifo_partition_sizes() {
    assert_eq!(fifo_partition(0), (3, 8));
    assert_eq!(fifo_partition(1), (3, 8));
    assert_eq!(fifo_partition(8), (3, 8));
    assert_eq!(fifo_partition(9), (4, 16));
    assert_eq!(fifo_partition(64), (6, 64));
    assert_eq!(fifo_partition(65), (7, 128));
    assert_eq!(fifo_partition(1023), (10, 1024));
    assert_eq!(fifo_partition(65535), (16, 65536));
}

#[test]
fn dynamic_fifo_partitions_advance_and_stay_within_ram() {
    let infos = uniform(8, 1024);
    let mut table = new_endpoint_table(8);
    let mut pool = FifoPool::dynamic(256);
    assert_eq!(pool, FifoPool::Dynamic { total_size: 256, next_addr_8bytes: 8 });
    // Endpoint 0 keeps its fixed partition and does not move the cursor.
    assert_eq!(
        alloc_endpoint(&mut table, &infos, &mut pool, EndpointType::Control, Some(0), Direction::In, 64),
        Ok(0)
    );
    assert_eq!(pool, FifoPool::Dynamic { total_size: 256, next_addr_8bytes: 8 });
    assert_eq!(table[0].ep_conf.tx_fifo_addr_8bytes, 0);
    assert_eq!(table[0].ep_conf.tx_fifo_size_bits, 6);
    // 100 bytes -> a 128-byte partition at 64 bytes.
    assert_eq!(
        alloc_endpoint(&mut table, &infos, &mut pool, EndpointType::Bulk, None, Direction::Out, 100),
        Ok(1)
    );
    assert_eq!(table[1].ep_conf.rx_fifo_size_bits, 7);
    assert_eq!(table[1].ep_conf.rx_fifo_addr_8bytes, 8);
    assert_eq!(pool, FifoPool::Dynamic { total_size: 256, next_addr_8bytes: 24 });
    // 64 bytes more fits exactly.
    assert_eq!(
        alloc_endpoint(&mut table, &infos, &mut pool, EndpointType::Bulk, None, Direction::In, 64),
        Ok(2)
    );
    assert_eq!(table[2].ep_conf.tx_fifo_addr_8bytes, 24);
    assert_eq!(pool, FifoPool::Dynamic { total_size: 256, next_addr_8bytes: 32 });
    // Nothing is left.
    let before = table.clone();
    assert_eq!(
        alloc_endpoint(&mut table, &infos, &mut pool, EndpointType::Bulk, None, Direction::In, 1),
        Err(EndpointAllocError::BufferOverflow)
    );
    assert_eq!(table, before);
    assert_eq!(pool, FifoPool::Dynamic { total_size: 256, next_addr_8bytes: 32 });
}
