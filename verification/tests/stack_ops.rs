use processor_emulator::stack::Stack;
use processor_emulator::Fault;

#[test]
fn stack_lifo_order() {
    let mut s = Stack::new();
    for v in [10u16, 20, 30, 40, 50] {
        assert_eq!(s.push(v), Ok(()));
    }
    let mut popped = Vec::new();
    for _ in 0..5 {
        popped.push(s.pop().unwrap());
    }
    assert_eq!(popped, vec![50, 40, 30, 20, 10]);
    assert_eq!(s.sp(), 0);
}

#[test]
fn stack_overflow_faults() {
    let mut s = Stack::new();
    for v in 0..16u16 {
        assert_eq!(s.push(v), Ok(()));
    }
    assert_eq!(s.sp(), 16);
    assert_eq!(s.push(99), Err(Fault::StackOverflow));
    assert_eq!(s.sp(), 16);
    assert_eq!(s.top(), Ok(15));
}

#[test]
fn stack_underflow_faults() {
    let mut s = Stack::new();
    assert_eq!(s.pop(), Err(Fault::StackUnderflow));
    assert_eq!(s.top(), Err(Fault::StackUnderflow));
    assert_eq!(s.nos(), Err(Fault::StackUnderflow));
    assert_eq!(s.push(7), Ok(()));
    assert_eq!(s.nos(), Err(Fault::StackUnderflow));
    assert_eq!(s.top(), Ok(7));
}

#[test]
fn stack_top_and_nos_read_without_popping() {
    let mut s = Stack::new();
    s.push(1).unwrap();
    s.push(2).unwrap();
    assert_eq!(s.top(), Ok(2));
    assert_eq!(s.nos(), Ok(1));
    assert_eq!(s.sp(), 2);
}

#[test]
fn stack_pop_zeroes_the_vacated_slot() {
    let mut s = Stack::new();
    s.push(0xABCD).unwrap();
    assert_eq!(s.pop(), Ok(0xABCD));
    let slots = s.slots();
    assert_eq!(slots.len(), 16);
    assert!(slots.iter().all(|&w| w == 0));
}

#[test]
fn stack_update_records_report_slots_and_pointer() {
    let mut s = Stack::new();
    s.push(3).unwrap();
    s.push(9).unwrap();
    let records = s.update_records();
    assert_eq!(records.len(), 17);
    for (i, r) in records.iter().take(16).enumerate() {
        assert_eq!(r.address, i as u16);
    }
    assert_eq!(records[0].value, 3);
    assert_eq!(records[1].value, 9);
    assert_eq!(records[2].value, 0);
    assert_eq!(records[16].address, 17);
    assert_eq!(records[16].value, 2);
}
