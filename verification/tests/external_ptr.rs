use remacs_lisp::lisp::{ExternalPtr, LispObject};
use remacs_lisp::remacs_sys::EmacsUint;

#[test]
fn null_handle_is_null() {
    let p: ExternalPtr<u64> = ExternalPtr::new(0);
    assert!(p.is_null());
    assert_eq!(p.as_ptr(), 0);
}

#[test]
fn other_handles_are_not_null() {
    let addresses: Vec<EmacsUint> = vec![1, 8, 0x1000, 0x7f00_0000_1000, EmacsUint::MAX];
    for addr in addresses {
        let p: ExternalPtr<u64> = ExternalPtr::new(addr);
        assert!(!p.is_null());
    }
}

#[test]
fn handle_keeps_its_address() {
    let mut p: ExternalPtr<String> = ExternalPtr::new(0x7f00_0000_1000);
    assert_eq!(p.as_ptr(), 0x7f00_0000_1000);
    assert_eq!(p.as_mut(), 0x7f00_0000_1000);
    assert_eq!(p.as_ptr(), 0x7f00_0000_1000);
}

#[test]
fn copy_has_the_same_address() {
    let mut p: ExternalPtr<Vec<u8>> = ExternalPtr::new(0x2000);
    let copied: ExternalPtr<Vec<u8>> = p;
    let cloned: ExternalPtr<Vec<u8>> = p.clone();
    assert_eq!(copied.as_ptr(), p.as_ptr());
    assert_eq!(cloned.as_ptr(), p.as_ptr());
    assert_eq!(copied.as_ptr(), p.as_mut());
    assert_eq!(copied.is_null(), p.is_null());
}

#[test]
fn handle_from_an_untagged_value() {
    let v: LispObject = LispObject::from_C(0x7f00_0000_1003);
    let p: ExternalPtr<(i64, i64)> = ExternalPtr::new(v.get_untaggedptr());
    assert_eq!(p.as_ptr(), 0x7f00_0000_1000);
    assert!(!p.is_null());
    assert_eq!(LispObject::tag_ptr(p, 3), v);
}
