use musb::alloc_endpoint::{Direction, EndpointAllocError, EndpointType, FifoPool};
use musb::driver::{EndpointAddress, EndpointInfo, MusbDriver};
use musb::info::{EpDirection, EpInfo};

fn chip() -> Vec<EpInfo> {
    vec![EpInfo { ep_direction: EpDirection::RXTX, max_packet_size: 64 }; 4]
}

#[test]
fn addresses() {
    let a = EndpointAddress::from_parts(3, Direction::In);
    assert_eq!(a.0, 0x83);
    assert_eq!(a.index(), 3);
    assert_eq!(a.direction(), Direction::In);
    let b = EndpointAddress::from_parts(2, Direction::Out);
    assert_eq!(b.0, 0x02);
    assert_eq!(b.direction(), Direction::Out);
}

#[test]
fn driver_start_and_allocate() {
    let mut d = MusbDriver::new(chip(), FifoPool::Fixed);
    let e = d.alloc_endpoint(EndpointType::Bulk, 64, 0, None, Direction::In).unwrap();
    assert_eq!(
        e,
        EndpointInfo {
            addr: EndpointAddress(0x81),
            ep_type: EndpointType::Bulk,
            max_packet_size: 64,
            interval_ms: 0
        }
    );
    let cp = d.start(64);
    assert_eq!(cp.ep_out.addr, EndpointAddress(0x00));
    assert_eq!(cp.ep_in.addr, EndpointAddress(0x80));
    assert!(d.alloc[0].used_rx && d.alloc[0].used_tx);
    assert_eq!(
        d.alloc_endpoint(EndpointType::Bulk, 128, 0, None, Direction::Out),
        Err(EndpointAllocError::EndpointOverflow)
    );
}
