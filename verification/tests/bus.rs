use is31fl3235a::bus::{Bus, Link};

/// A bus that keeps what it was last asked to write and accepts a write if
/// its first byte is even.
struct EvenOnly {
    last: Option<(u8, Vec<u8>)>,
    calls: usize,
}

impl Bus for &mut EvenOnly {
    type Error = u8;

    fn write(&mut self, address: u8, bytes: &[u8]) -> Result<(), u8> {
        self.last = Some((address, bytes.to_vec()));
        self.calls += 1;
        if bytes[0] % 2 == 0 {
            Ok(())
        } else {
            Err(bytes[0])
        }
    }
}

#[test]
fn link_makes_no_write_when_made() {
    let mut bus = EvenOnly { last: None, calls: 0 };
    {
        let _link = Link::new(&mut bus);
    }
    assert_eq!(bus.calls, 0);
    assert_eq!(bus.last, None);
}

#[test]
fn link_hands_address_and_bytes_to_the_bus() {
    let mut bus = EvenOnly { last: None, calls: 0 };
    let result = Link::new(&mut bus).write(0x51, &[4, 5, 6]);
    assert_eq!(result, Ok(()));
    assert_eq!(bus.calls, 1);
    assert_eq!(bus.last, Some((0x51, vec![4, 5, 6])));
}

#[test]
fn link_returns_the_error_of_the_bus() {
    let mut bus = EvenOnly { last: None, calls: 0 };
    let result = Link::new(&mut bus).write(0x51, &[7, 0]);
    assert_eq!(result, Err(7));
    assert_eq!(bus.calls, 1);
}

#[test]
fn link_makes_one_bus_write_per_call() {
    let mut bus = EvenOnly { last: None, calls: 0 };
    {
        let mut link = Link::new(&mut bus);
        assert_eq!(link.write(1, &[2, 2]), Ok(()));
        assert_eq!(link.write(1, &[3, 3]), Err(3));
        assert_eq!(link.write(2, &[8, 1]), Ok(()));
    }
    assert_eq!(bus.calls, 3);
    assert_eq!(bus.last, Some((2, vec![8, 1])));
}
