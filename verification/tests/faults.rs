use ctre::mot::faults::{Faults, StickyFaults};

#[test]
fn faults_flag_values() {
    assert_eq!(Faults::UNDER_VOLTAGE().bits(), 1);
    assert_eq!(Faults::FORWARD_LIMIT_SWITCH().bits(), 2);
    assert_eq!(Faults::HARDWARE_FAILURE().bits(), 32);
    assert_eq!(Faults::API_ERROR().bits(), 1 << 11);
    assert_eq!(Faults::all().bits(), 0xFFF);
    assert_eq!(Faults::empty().bits(), 0);
}

#[test]
fn sticky_faults_flag_values() {
    assert_eq!(StickyFaults::RESET_DURING_EN().bits(), 1 << 5);
    assert_eq!(StickyFaults::API_ERROR().bits(), 1 << 10);
    assert_eq!(StickyFaults::all().bits(), 0x7FF);
}

#[test]
fn faults_insert_remove_contains() {
    let mut f = Faults::empty();
    assert!(f.is_empty());
    f.insert(Faults::UNDER_VOLTAGE());
    f.insert(Faults::SENSOR_OVERFLOW());
    assert!(f.contains(Faults::UNDER_VOLTAGE()));
    assert!(f.contains(Faults::SENSOR_OVERFLOW()));
    assert!(!f.contains(Faults::API_ERROR()));
    assert_eq!(f.bits(), 1 | (1 << 7));
    f.remove(Faults::UNDER_VOLTAGE());
    assert!(!f.contains(Faults::UNDER_VOLTAGE()));
    assert!(!f.intersects(Faults::UNDER_VOLTAGE()));
    assert_eq!(f.bits(), 1 << 7);
}

#[test]
fn faults_toggle_and_set() {
    let mut f = Faults::from_bits_retain(0b101);
    f.toggle(Faults::from_bits_retain(0b110));
    assert_eq!(f.bits(), 0b011);
    f.toggle(Faults::from_bits_retain(0b110));
    assert_eq!(f.bits(), 0b101);
    f.set(Faults::REMOTE_LOSS_OF_SIGNAL(), true);
    assert!(f.contains(Faults::REMOTE_LOSS_OF_SIGNAL()));
    f.set(Faults::REMOTE_LOSS_OF_SIGNAL(), false);
    assert!(!f.contains(Faults::REMOTE_LOSS_OF_SIGNAL()));
    assert_eq!(f.bits(), 0b101);
}

#[test]
fn faults_from_bits() {
    assert_eq!(Faults::from_bits(0x0F0).map(|f| f.bits()), Some(0x0F0));
    assert!(Faults::from_bits(0x1000).is_none());
    assert!(Faults::from_bits(-1).is_none());
    assert_eq!(Faults::from_bits_truncate(0x1F0F).bits(), 0xF0F);
    assert_eq!(Faults::from_bits_truncate(-1).bits(), 0xFFF);
    assert_eq!(Faults::from_bits_retain(0x1000).bits(), 0x1000);
    assert!(StickyFaults::from_bits(0x800).is_none());
    assert_eq!(StickyFaults::from_bits_truncate(0xFFF).bits(), 0x7FF);
}

#[test]
fn faults_is_all() {
    assert!(Faults::all().is_all());
    assert!(Faults::from_bits_retain(-1).is_all());
    assert!(!Faults::from_bits_retain(0x7FF).is_all());
    assert!(StickyFaults::from_bits_retain(0x7FF).is_all());
}

#[test]
fn faults_set_operations() {
    let a = Faults::from_bits_retain(0b1100);
    let b = Faults::from_bits_retain(0b1010);
    assert_eq!(a.union(b).bits(), 0b1110);
    assert_eq!(a.intersection(b).bits(), 0b1000);
    assert_eq!(a.difference(b).bits(), 0b0100);
    assert_eq!(a.symmetric_difference(b).bits(), 0b0110);
    assert_eq!(a.complement().bits(), 0xFFF & !0b1100);
    assert_eq!(a.complement().complement().bits(), 0b1100);
    assert_eq!(Faults::from_bits_retain(0x1001).complement().bits(), 0xFFE);
    assert!(a.union(b).contains(a));
    assert!(a.union(b).contains(b));
}

#[test]
fn faults_operators() {
    let a = Faults::from_bits_retain(0b1100);
    let b = Faults::from_bits_retain(0b1010);
    assert_eq!((a | b).bits(), 0b1110);
    assert_eq!((a & b).bits(), 0b1000);
    assert_eq!((a ^ b).bits(), 0b0110);
    assert_eq!((a - b).bits(), 0b0100);
    assert_eq!((!a).bits(), 0xFFF & !0b1100);
    let mut c = a;
    c |= b;
    assert_eq!(c.bits(), 0b1110);
    c &= a;
    assert_eq!(c.bits(), 0b1100);
    c ^= b;
    assert_eq!(c.bits(), 0b0110);
    c -= b;
    assert_eq!(c.bits(), 0b0100);
    assert_eq!((!StickyFaults::empty()).bits(), 0x7FF);
    let mut s = StickyFaults::API_ERROR();
    s |= StickyFaults::UNDER_VOLTAGE();
    assert_eq!(s.bits(), (1 << 10) | 1);
}

#[test]
fn union_all_and_extend() {
    let parts = [Faults::UNDER_VOLTAGE(), Faults::API_ERROR(), Faults::UNDER_VOLTAGE()];
    let u = Faults::union_all(&parts);
    assert_eq!(u.bits(), 0x801);
    assert_eq!(Faults::union_all(&[]), Faults::empty());
    let mut f = Faults::HARDWARE_FAILURE();
    f.extend(&parts);
    assert_eq!(f, Faults::HARDWARE_FAILURE() | Faults::UNDER_VOLTAGE() | Faults::API_ERROR());
    let mut s = StickyFaults::empty();
    s.extend(&[StickyFaults::RESET_DURING_EN(), StickyFaults::SENSOR_OVERFLOW()]);
    assert_eq!(s, StickyFaults::union_all(&[StickyFaults::SENSOR_OVERFLOW(), StickyFaults::RESET_DURING_EN()]));
}

#[test]
fn flags_are_ordered_by_bits() {
    assert!(Faults::UNDER_VOLTAGE() < Faults::FORWARD_LIMIT_SWITCH());
    assert!(Faults::empty() < Faults::all());
    assert_eq!(StickyFaults::all().max(StickyFaults::empty()), StickyFaults::all());
}

#[test]
fn debug_text_lists_flags() {
    assert_eq!(Faults::empty().debug_string(), "(empty)");
    assert_eq!((Faults::UNDER_VOLTAGE() | Faults::API_ERROR()).debug_string(), "UNDER_VOLTAGE | API_ERROR");
    assert_eq!(Faults::from_bits_retain(0x1001).debug_string(), "UNDER_VOLTAGE | 0x1000");
    assert_eq!(Faults::from_bits_retain(0x2000).debug_string(), "0x2000");
    assert_eq!(
        Faults::from_bits_retain(-1).debug_string(),
        "UNDER_VOLTAGE | FORWARD_LIMIT_SWITCH | REVERSE_LIMIT_SWITCH | FORWARD_SOFT_LIMIT | \
         REVERSE_SOFT_LIMIT | HARDWARE_FAILURE | RESET_DURING_EN | SENSOR_OVERFLOW | \
         SENSOR_OUT_OF_PHASE | HARDWARE_ESD_RESET | REMOTE_LOSS_OF_SIGNAL | API_ERROR | 0xfffff000"
    );
    assert_eq!(
        (StickyFaults::RESET_DURING_EN() | StickyFaults::API_ERROR()).debug_string(),
        "RESET_DURING_EN | API_ERROR"
    );
    assert_eq!(StickyFaults::from_bits_retain(0x800).debug_string(), "0x800");
}
