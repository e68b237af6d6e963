use f4::adc::Adc;
use f4::dma::{Buffer, BufferState, Channel, Direction, Dma, DmaExt, Error, Mode, CHANNELS};
use f4::serial::Serial;

const USART2_DR: u32 = 0x4000_4404;

#[test]
fn receive_eight_bytes_one_shot() {
    let mut dma = Dma::new(1);
    let channels = (&mut dma).split().unwrap();
    let serial = Serial::new(USART2_DR);
    let mut buffer = Buffer::new(vec![0u8; 8]);
    let transfer = serial.read_exact(&mut dma, &channels.5, &mut buffer).unwrap();
    assert_eq!(buffer.state(), BufferState::LockedByDma(1, 5));
    assert_eq!(dma.channel(5).peripheral_address, USART2_DR);
    assert_eq!(dma.channel(5).count, 8);
    for b in 1u8..=8 {
        assert_eq!(transfer.is_done(&dma), Ok(false));
        assert_eq!(dma.request(5, &mut buffer, b), None);
    }
    assert_eq!(transfer.is_done(&dma), Ok(true));
    assert_eq!(transfer.wait(&mut dma, &mut buffer), Ok(()));
    assert_eq!(buffer.state(), BufferState::Free);
    assert_eq!(buffer.lock().unwrap(), &[1u8, 2, 3, 4, 5, 6, 7, 8][..]);
    assert!(!dma.is_enabled(5));
    assert!(!dma.channel(5).complete);
}

#[test]
fn second_start_on_busy_channel_is_in_use() {
    let mut dma = Dma::new(1);
    let mut first = Buffer::new(vec![0u8; 4]);
    let mut second = Buffer::new(vec![9u8; 4]);
    let _t = dma
        .start(5, &mut first, USART2_DR, Direction::PeripheralToMemory, Mode::OneShot)
        .unwrap();
    let before = dma.channel(5);
    let again = dma.start(5, &mut second, 0x1234, Direction::MemoryToPeripheral, Mode::OneShot);
    assert!(matches!(again, Err(Error::InUse)));
    assert_eq!(dma.channel(5), before);
    assert_eq!(second.state(), BufferState::Free);
    // still in use after completion, until the buffer is released
    for _ in 0..4 {
        dma.request(5, &mut first, 7u8);
    }
    let again = dma.start(5, &mut second, 0x1234, Direction::MemoryToPeripheral, Mode::OneShot);
    assert!(matches!(again, Err(Error::InUse)));
    assert_eq!(first.release(&mut dma), Ok(()));
    assert!(dma
        .start(5, &mut second, 0x1234, Direction::MemoryToPeripheral, Mode::OneShot)
        .is_ok());
}

#[test]
fn locked_buffer_cannot_start_elsewhere() {
    let mut dma = Dma::new(1);
    let mut buffer = Buffer::new(vec![0u8; 2]);
    let _t = dma
        .start(4, &mut buffer, 0, Direction::PeripheralToMemory, Mode::OneShot)
        .unwrap();
    let other = dma.start(3, &mut buffer, 0, Direction::PeripheralToMemory, Mode::OneShot);
    assert!(matches!(other, Err(Error::InUse)));
    assert!(!dma.is_enabled(3));
}

#[test]
fn lock_mut_refused_while_lent() {
    let mut dma = Dma::new(1);
    let mut buffer = Buffer::new(vec![1u8, 2, 3]);
    buffer.lock_mut().unwrap()[0] = 10;
    let t = dma
        .start(6, &mut buffer, 0, Direction::MemoryToPeripheral, Mode::OneShot)
        .unwrap();
    assert!(matches!(buffer.lock_mut(), Err(Error::InUse)));
    assert!(matches!(buffer.lock(), Err(Error::InUse)));
    for _ in 0..3 {
        dma.request(6, &mut buffer, 0u8);
    }
    assert_eq!(t.wait(&mut dma, &mut buffer), Ok(()));
    assert_eq!(buffer.lock_mut().unwrap(), &mut [10u8, 2, 3][..]);
}

#[test]
fn send_round_trip_keeps_contents() {
    let mut dma = Dma::new(1);
    let channels = (&mut dma).split().unwrap();
    let serial = Serial::new(USART2_DR);
    let mut buffer = Buffer::new(b"hello".to_vec());
    let t = serial.write_all(&mut dma, &channels.6, &mut buffer).unwrap();
    let mut sent = Vec::new();
    while t.is_done(&dma) == Ok(false) {
        sent.push(dma.request(6, &mut buffer, 0u8).unwrap());
    }
    assert_eq!(sent, b"hello".to_vec());
    assert_eq!(dma.request(6, &mut buffer, 0u8), None);
    assert_eq!(t.wait(&mut dma, &mut buffer), Ok(()));
    assert_eq!(buffer.state(), BufferState::Free);
    assert_eq!(buffer.lock().unwrap(), b"hello");
}

#[test]
fn release_before_completion_is_not_done() {
    let mut dma = Dma::new(1);
    let mut buffer = Buffer::new(vec![0u8; 3]);
    let _t = dma
        .start(5, &mut buffer, 0, Direction::PeripheralToMemory, Mode::OneShot)
        .unwrap();
    dma.request(5, &mut buffer, 1u8);
    let regs = dma.channel(5);
    assert_eq!(buffer.release(&mut dma), Err(Error::NotDone));
    assert_eq!(buffer.state(), BufferState::LockedByDma(1, 5));
    assert_eq!(dma.channel(5), regs);
    dma.request(5, &mut buffer, 2u8);
    dma.request(5, &mut buffer, 3u8);
    assert_eq!(buffer.release(&mut dma), Ok(()));
    assert_eq!(buffer.lock().unwrap(), &[1u8, 2, 3][..]);
    // a free buffer releases trivially
    assert_eq!(buffer.release(&mut dma), Ok(()));
}

#[test]
fn bus_error_is_reported() {
    let mut dma = Dma::new(1);
    let mut buffer = Buffer::new(vec![0u8; 4]);
    let t = dma
        .start(2, &mut buffer, 0, Direction::PeripheralToMemory, Mode::OneShot)
        .unwrap();
    dma.fault(2);
    assert!(!dma.is_enabled(2));
    assert_eq!(t.is_done(&dma), Err(Error::Transfer));
    assert_eq!(buffer.release(&mut dma), Err(Error::Transfer));
    assert_eq!(buffer.state(), BufferState::LockedByDma(1, 2));
    assert_eq!(dma.request(2, &mut buffer, 5u8), None);
    assert_eq!(t.wait(&mut dma, &mut buffer), Err(Error::Transfer));
    assert_eq!(buffer.recover(&mut dma), Ok(()));
    assert_eq!(buffer.state(), BufferState::Free);
    assert!(!dma.channel(2).error);
    assert!(dma
        .start(2, &mut buffer, 0, Direction::PeripheralToMemory, Mode::OneShot)
        .is_ok());
}

#[test]
fn recover_refused_while_engine_holds_buffer() {
    let mut dma = Dma::new(1);
    let mut buffer = Buffer::new(vec![0u8; 2]);
    let _t = dma
        .start(3, &mut buffer, 0, Direction::PeripheralToMemory, Mode::OneShot)
        .unwrap();
    assert_eq!(buffer.recover(&mut dma), Err(Error::InUse));
    assert_eq!(buffer.state(), BufferState::LockedByDma(1, 3));
    assert!(dma.is_enabled(3));
}

#[test]
fn empty_transfer_completes_at_once() {
    let mut dma = Dma::new(1);
    let mut buffer: Buffer<u8> = Buffer::new(Vec::new());
    let t = dma
        .start(1, &mut buffer, 0, Direction::PeripheralToMemory, Mode::OneShot)
        .unwrap();
    assert_eq!(t.is_done(&dma), Ok(true));
    assert_eq!(t.wait(&mut dma, &mut buffer), Ok(()));
    assert_eq!(buffer.state(), BufferState::Free);
}

#[test]
fn largest_count_fits_the_register() {
    let mut dma = Dma::new(1);
    let mut buffer = Buffer::new(vec![0u8; 0xFFFF]);
    let _t = dma
        .start(7, &mut buffer, 0, Direction::PeripheralToMemory, Mode::OneShot)
        .unwrap();
    assert_eq!(dma.channel(7).count, 0xFFFF);
    assert_eq!(dma.channel(7).remaining, 0xFFFF);
}

fn circular_setup() -> (Dma, Buffer<u16>, f4::dma::Transfer) {
    let mut dma = Dma::new(2);
    let mut buffer = Buffer::new(vec![0u16; 8]);
    let adc = Adc::new(0x4001_204C);
    let stream = dma.take_stream0().unwrap();
    let t = adc.start(&mut dma, &stream, &mut buffer).unwrap();
    (dma, buffer, t)
}

#[test]
fn circular_halves_alternate_after_five() {
    let (mut dma, mut buffer, mut t) = circular_setup();
    assert_eq!(t.mode(), Mode::Circular);
    let mut sample: u16 = 0;
    let mut last = None;
    for _ in 0..5 {
        for _ in 0..4 {
            dma.request(0, &mut buffer, sample);
            sample += 1;
        }
        last = Some(t.read_half(&mut dma, &buffer).unwrap());
    }
    assert_eq!(last, Some((0usize, vec![16u16, 17, 18, 19])));
    assert_eq!(t.active_slot(&dma), 1);
    assert!(dma.is_enabled(0));
    assert_eq!(dma.channel(0).remaining, 4);
}

#[test]
fn circular_readable_half_never_active() {
    let (mut dma, mut buffer, mut t) = circular_setup();
    let mut sample: u16 = 0;
    for n in 1..=10usize {
        for _ in 0..4 {
            dma.request(0, &mut buffer, sample);
            sample += 1;
        }
        let (slot, data) = t.read_half(&mut dma, &buffer).unwrap();
        assert_eq!(slot, (n + 1) % 2);
        assert_ne!(slot, t.active_slot(&dma));
        let first = (n as u16 - 1) * 4;
        assert_eq!(data, vec![first, first + 1, first + 2, first + 3]);
    }
}

#[test]
fn circular_read_too_early_is_not_done() {
    let (mut dma, mut buffer, mut t) = circular_setup();
    dma.request(0, &mut buffer, 1u16);
    assert_eq!(t.read_half(&mut dma, &buffer), Err(Error::NotDone));
}

#[test]
fn circular_overrun_resynchronises() {
    let (mut dma, mut buffer, mut t) = circular_setup();
    for s in 0..10u16 {
        dma.request(0, &mut buffer, s);
    }
    assert_eq!(t.read_half(&mut dma, &buffer), Err(Error::Overrun));
    assert!(!dma.channel(0).half && !dma.channel(0).complete);
    assert_eq!(t.active_slot(&dma), 0);
    for s in 10..12u16 {
        dma.request(0, &mut buffer, s);
    }
    assert_eq!(t.read_half(&mut dma, &buffer), Ok((0usize, vec![8u16, 9, 10, 11])));
}

#[test]
fn circular_fault_is_transfer_error() {
    let (mut dma, buffer, mut t) = circular_setup();
    dma.fault(0);
    assert_eq!(t.read_half(&mut dma, &buffer), Err(Error::Transfer));
}

#[test]
fn channel_handles_handed_out_once() {
    let mut dma = Dma::new(1);
    let c = (&mut dma).split().unwrap();
    assert_eq!((c.4.controller(), c.4.number()), (1, 4));
    assert_eq!((c.5.controller(), c.5.number()), (1, 5));
    assert_eq!((c.6.controller(), c.6.number()), (1, 6));
    assert!((&mut dma).split().is_none());
    assert!(dma.take_stream0().is_none());
    for ch in 0..CHANNELS {
        assert!(!dma.is_enabled(ch));
    }
    let mut dma2 = Dma::new(2);
    assert!((&mut dma2).split().is_none());
    let s = dma2.take_stream0().unwrap();
    assert_eq!((s.controller(), s.number()), (2, 0));
    assert!(dma2.take_stream0().is_none());
}

#[test]
fn release_through_another_controller_is_refused() {
    let (_dma2, mut adc_buffer, _t) = circular_setup();
    let mut dma1 = Dma::new(1);
    let mut empty: Buffer<u16> = Buffer::new(Vec::new());
    let _z = dma1
        .start(0, &mut empty, 0, Direction::PeripheralToMemory, Mode::OneShot)
        .unwrap();
    assert!(dma1.channel(0).complete);
    assert_eq!(adc_buffer.release(&mut dma1), Err(Error::InUse));
    assert_eq!(adc_buffer.recover(&mut dma1), Err(Error::InUse));
    assert_eq!(adc_buffer.state(), BufferState::LockedByDma(2, 0));
    assert!(matches!(adc_buffer.lock_mut(), Err(Error::InUse)));
    assert!(dma1.channel(0).complete);
}

#[test]
fn oversized_buffer_is_size_error() {
    let mut dma = Dma::new(1);
    let mut buffer = Buffer::new(vec![0u8; 0x1_0000]);
    let r = dma.start(5, &mut buffer, 0, Direction::PeripheralToMemory, Mode::OneShot);
    assert!(matches!(r, Err(Error::Size)));
    assert_eq!(buffer.state(), BufferState::Free);
    assert!(!dma.is_enabled(5));
    let channels = (&mut dma).split().unwrap();
    let serial = Serial::new(USART2_DR);
    assert!(matches!(serial.read_exact(&mut dma, &channels.5, &mut buffer), Err(Error::Size)));
    // a busy channel answers InUse whatever the size
    let mut small = Buffer::new(vec![0u8; 2]);
    let _t = serial.read_exact(&mut dma, &channels.5, &mut small).unwrap();
    assert!(matches!(serial.read_exact(&mut dma, &channels.5, &mut buffer), Err(Error::InUse)));
}

#[test]
fn circular_needs_two_equal_halves() {
    let mut dma = Dma::new(2);
    let stream = dma.take_stream0().unwrap();
    let adc = Adc::new(0x4001_204C);
    let mut odd = Buffer::new(vec![0u16; 3]);
    assert!(matches!(adc.start(&mut dma, &stream, &mut odd), Err(Error::Size)));
    let mut empty: Buffer<u16> = Buffer::new(Vec::new());
    assert!(matches!(adc.start(&mut dma, &stream, &mut empty), Err(Error::Size)));
    assert_eq!(dma.check_start(0, &odd, Mode::Circular), Err(Error::Size));
    assert_eq!(dma.check_start(0, &odd, Mode::OneShot), Ok(()));
    assert!(!dma.is_enabled(0));
}

#[test]
fn wait_after_polling_loop() {
    let mut dma = Dma::new(1);
    let mut buffer = Buffer::new(vec![0u8; 3]);
    let t = dma
        .start(5, &mut buffer, USART2_DR, Direction::PeripheralToMemory, Mode::OneShot)
        .unwrap();
    let mut next = 10u8;
    while t.is_done(&dma) == Ok(false) {
        dma.request(5, &mut buffer, next);
        next += 1;
    }
    assert_eq!(t.wait(&mut dma, &mut buffer), Ok(()));
    assert_eq!(buffer.lock().unwrap(), &[10u8, 11, 12][..]);
}
