use heroi::ports::{allocate_port_range, PORT_MAX, PORT_RANGE_SIZE, PORT_START};
use heroi::error::ErrorKind;
use std::collections::HashSet;

fn set(ports: &[u16]) -> HashSet<u16> {
    ports.iter().copied().collect()
}

#[test]
fn first_range_starts_at_3000() {
    assert_eq!(allocate_port_range(&set(&[]), &set(&[])).unwrap(), 3000);
}

#[test]
fn allocated_ranges_are_skipped() {
    let allocated = set(&[3000, 3010, 3020]);
    assert_eq!(allocate_port_range(&allocated, &set(&[])).unwrap(), 3030);
}

#[test]
fn busy_ranges_are_skipped() {
    let allocated = set(&[3000]);
    let busy = set(&[3010, 3020]);
    assert_eq!(allocate_port_range(&allocated, &busy).unwrap(), 3030);
}

#[test]
fn gaps_are_filled_lowest_first() {
    let allocated = set(&[3000, 3020]);
    assert_eq!(allocate_port_range(&allocated, &set(&[])).unwrap(), 3010);
}

#[test]
fn ports_off_the_grid_do_not_count() {
    let allocated = set(&[3001, 3005, 2990]);
    assert_eq!(allocate_port_range(&allocated, &set(&[])).unwrap(), 3000);
}

#[test]
fn last_candidate_is_64990() {
    let mut allocated = HashSet::new();
    let mut port = PORT_START;
    while port < PORT_MAX - PORT_RANGE_SIZE {
        allocated.insert(port);
        port += PORT_RANGE_SIZE;
    }
    assert_eq!(allocate_port_range(&allocated, &set(&[])).unwrap(), 64990);
}

#[test]
fn exhaustion_is_reported() {
    let mut allocated = HashSet::new();
    let mut busy = HashSet::new();
    let mut port = PORT_START;
    let mut flip = false;
    while port < PORT_MAX {
        if flip {
            allocated.insert(port);
        } else {
            busy.insert(port);
        }
        flip = !flip;
        port += PORT_RANGE_SIZE;
    }
    let err = allocate_port_range(&allocated, &busy).unwrap_err();
    assert_eq!(err.kind, ErrorKind::ResourceExhausted);
    assert_eq!(err.message(), "No available port range found");
}

#[test]
fn allocation_records_nothing() {
    let allocated = set(&[3000]);
    let busy = set(&[]);
    let first = allocate_port_range(&allocated, &busy).unwrap();
    let second = allocate_port_range(&allocated, &busy).unwrap();
    assert_eq!(first, 3010);
    assert_eq!(second, 3010);
    assert_eq!(allocated.len(), 1);
}
