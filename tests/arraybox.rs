use arraybox::{AnyOf2, ArrayBox, BufFor, Capacity, ConstructError};
use std::cell::Cell;
use std::rc::Rc;

trait Int {
    fn value(&self) -> i32;
}

struct IntValue(i32);

impl Int for IntValue {
    fn value(&self) -> i32 {
        self.0
    }
}

#[allow(dead_code)]
struct Record {
    a: u64,
    b: u64,
}

fn read_through_interface(x: &dyn Int) -> i32 {
    x.value()
}

#[test]
fn new_then_read_gives_value_back() {
    let a: ArrayBox<IntValue, IntValue> = ArrayBox::new(IntValue(7));
    assert_eq!(a.value(), 7);
    assert_eq!(read_through_interface(a.as_ptr()), 7);
}

#[test]
fn try_new_in_larger_buffer_reads_back() {
    let b = ArrayBox::<u16, u64>::try_new(513u16).ok().unwrap();
    assert_eq!(*b.as_ptr(), 513);
    assert_eq!(*b, 513);
    assert_eq!(*b.as_ref(), 513);
}

#[test]
fn write_through_mutable_view_is_kept() {
    let mut b = ArrayBox::<u32, u64>::try_new(1u32).ok().unwrap();
    *b.as_mut_ptr() = 40;
    assert_eq!(*b.as_ptr(), 40);
    *b += 2;
    assert_eq!(*b, 42);
    *b.as_mut() = 5;
    assert_eq!(*b.as_ref(), 5);
}

#[test]
fn oversized_value_is_refused_and_handed_back() {
    let source = [3u8; 16];
    match ArrayBox::<[u8; 16], u64>::try_new(source) {
        Ok(_) => panic!("a 16-byte value cannot fit an 8-byte buffer"),
        Err((back, e)) => {
            assert_eq!(e, ConstructError::CapacityExceeded);
            assert_eq!(back, [3u8; 16]);
        }
    }
}

#[test]
fn overaligned_value_is_refused_and_handed_back() {
    match ArrayBox::<u64, [u8; 8]>::try_new(99u64) {
        Ok(_) => panic!("an 8-aligned value cannot fit a 1-aligned buffer"),
        Err((back, e)) => {
            assert_eq!(e, ConstructError::AlignmentExceeded);
            assert_eq!(back, 99);
        }
    }
}

#[test]
fn alignment_is_examined_before_size() {
    match ArrayBox::<[u64; 4], [u8; 8]>::try_new([1u64; 4]) {
        Ok(_) => panic!("neither size nor alignment fits"),
        Err((_, e)) => assert_eq!(e, ConstructError::AlignmentExceeded),
    }
}

#[test]
fn check_fit_exact_outcomes() {
    let cap = Capacity { size: 16, align: 8 };
    assert_eq!(cap.check_fit(&Capacity { size: 16, align: 8 }), Ok(()));
    assert_eq!(cap.check_fit(&Capacity { size: 4, align: 4 }), Ok(()));
    assert_eq!(
        cap.check_fit(&Capacity { size: 24, align: 8 }),
        Err(ConstructError::CapacityExceeded)
    );
    assert_eq!(
        cap.check_fit(&Capacity { size: 16, align: 16 }),
        Err(ConstructError::AlignmentExceeded)
    );
}

#[test]
fn any_of2_rounds_size_up_to_the_larger_alignment() {
    let a = Capacity { size: 12, align: 4 };
    let b = Capacity { size: 8, align: 8 };
    assert_eq!(Capacity::any_of2(&a, &b), Capacity { size: 16, align: 8 });
    assert_eq!(Capacity::any_of2(&b, &a), Capacity { size: 16, align: 8 });
}

#[test]
fn any_of2_of_equal_layouts_is_that_layout() {
    let a = Capacity { size: 24, align: 8 };
    assert_eq!(Capacity::any_of2(&a, &a), a);
}

#[test]
fn combined_capacity_of_int_and_record() {
    let int = Capacity::of::<i32>();
    let record = Capacity::of::<Record>();
    assert_eq!(int, Capacity { size: 4, align: 4 });
    assert_eq!(record, Capacity { size: 16, align: 8 });
    let both = Capacity::any_of2(&int, &record);
    assert!(both.size >= 16);
    assert!(both.align >= 8);
    assert_eq!(both, Capacity { size: 16, align: 8 });
    assert_eq!(both.check_fit(&int), Ok(()));
    assert_eq!(both.check_fit(&record), Ok(()));
}

#[test]
fn box_over_any_of2_takes_either_type() {
    let union_layout = Capacity::of::<AnyOf2<IntValue, Record>>();
    assert!(union_layout.size >= 16);
    assert!(union_layout.align >= 8);
    let a = ArrayBox::<IntValue, AnyOf2<IntValue, Record>>::try_new(IntValue(7))
        .ok()
        .unwrap();
    assert_eq!(a.value(), 7);
    let r = ArrayBox::<Record, AnyOf2<IntValue, Record>>::try_new(Record { a: 1, b: 2 })
        .ok()
        .unwrap();
    assert_eq!(r.as_ptr().b, 2);
}

#[test]
fn shape_and_capacity_report_layouts() {
    let b = ArrayBox::<u16, u64>::try_new(1u16).ok().unwrap();
    assert_eq!(b.shape(), Capacity { size: 2, align: 2 });
    assert_eq!(b.capacity(), Capacity { size: 8, align: 8 });
}

#[test]
fn buffer_reports_its_commitment() {
    let buf = BufFor::<[u32; 3]>::new();
    assert_eq!(buf.required_size(), 12);
    assert_eq!(buf.required_alignment(), 4);
    assert_eq!(buf.layout(), Capacity { size: 12, align: 4 });
}

struct Counted(Rc<Cell<i32>>);

impl Counted {
    fn new(live: &Rc<Cell<i32>>) -> Counted {
        live.set(live.get() + 1);
        Counted(live.clone())
    }
}

impl Drop for Counted {
    fn drop(&mut self) {
        self.0.set(self.0.get() - 1);
    }
}

#[test]
fn dropping_a_box_releases_its_value_once() {
    let live = Rc::new(Cell::new(0));
    {
        let b = ArrayBox::<Counted, Counted>::new(Counted::new(&live));
        assert_eq!(live.get(), 1);
        assert_eq!(Rc::strong_count(&b.as_ptr().0), 2);
    }
    assert_eq!(live.get(), 0);
    assert_eq!(Rc::strong_count(&live), 1);
}

#[test]
fn dropping_a_nested_box_releases_the_inner_value_once() {
    let live = Rc::new(Cell::new(0));
    {
        let inner = ArrayBox::<Counted, Counted>::new(Counted::new(&live));
        let outer = ArrayBox::<ArrayBox<Counted, Counted>, ArrayBox<Counted, Counted>>::new(inner);
        assert_eq!(live.get(), 1);
        assert_eq!(Rc::strong_count(&outer.as_ptr().as_ptr().0), 2);
    }
    assert_eq!(live.get(), 0);
    assert_eq!(Rc::strong_count(&live), 1);
}

#[test]
fn refused_value_is_released_by_its_new_owner_only() {
    let live = Rc::new(Cell::new(0));
    match ArrayBox::<Counted, u8>::try_new(Counted::new(&live)) {
        Ok(_) => panic!("a pointer-sized value cannot fit one byte"),
        Err((back, e)) => {
            assert_eq!(e, ConstructError::AlignmentExceeded);
            assert_eq!(live.get(), 1);
            drop(back);
        }
    }
    assert_eq!(live.get(), 0);
}

#[test]
fn views_agree_with_as_ptr() {
    let mut b: ArrayBox<IntValue, IntValue> = ArrayBox::new(IntValue(7));
    assert_eq!(std::ops::Deref::deref(&b).value(), 7);
    let r: &IntValue = std::borrow::Borrow::borrow(&b);
    assert_eq!(r.value(), 7);
    let m: &mut IntValue = std::borrow::BorrowMut::borrow_mut(&mut b);
    m.0 = 8;
    assert_eq!(b.as_ptr().value(), 8);
    std::ops::DerefMut::deref_mut(&mut b).0 = 9;
    assert_eq!(std::ops::Deref::deref(&b).value(), 9);
    assert_eq!(AsRef::<IntValue>::as_ref(&b).value(), 9);
    AsMut::<IntValue>::as_mut(&mut b).0 = 10;
    assert_eq!(b.as_ptr().value(), 10);
}
