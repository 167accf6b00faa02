use ggmod::gamebanana::builder::{FeedFilter, TypeFilter};
use ggmod::tui::app::Window;
use ggmod::tui::state::CyclicState;

#[test]
fn cycle_wraps_from_last_to_first() {
    let mut c = CyclicState::new(TypeFilter::variants(), TypeFilter::Skin).unwrap();
    assert_eq!(*c.item(), TypeFilter::Skin);
    c.cycle();
    assert_eq!(*c.item(), TypeFilter::Sound);
    c.cycle();
    assert_eq!(*c.item(), TypeFilter::WiP);
    c.cycle();
    assert_eq!(*c.item(), TypeFilter::Skin);
}

#[test]
fn cycle_back_wraps_from_first_to_last() {
    let mut c = CyclicState::new(FeedFilter::variants(), FeedFilter::Recent).unwrap();
    c.cycle_back();
    assert_eq!(*c.item(), FeedFilter::Featured);
    c.cycle_back();
    assert_eq!(*c.item(), FeedFilter::Popular);
    c.cycle_back();
    assert_eq!(*c.item(), FeedFilter::Recent);
}

#[test]
fn as_many_cycles_as_variants_return_to_start() {
    for start in Window::variants() {
        let mut c = CyclicState::new(Window::variants(), start).unwrap();
        for _ in 0..c.len() {
            c.cycle();
        }
        assert_eq!(*c.item(), start);
    }
}

#[test]
fn cycle_then_back_returns_to_start() {
    for start in Window::variants() {
        let mut c = CyclicState::new(Window::variants(), start).unwrap();
        c.cycle();
        c.cycle_back();
        assert_eq!(*c.item(), start);
        c.cycle_back();
        c.cycle();
        assert_eq!(*c.item(), start);
    }
}

#[test]
fn cycle_to_reaches_target_and_stays_when_there() {
    let mut c = CyclicState::new(Window::variants(), Window::Category).unwrap();
    c.cycle_to(Window::Category);
    assert_eq!(*c.item(), Window::Category);
    c.cycle_to(Window::Main);
    assert_eq!(*c.item(), Window::Main);
    c.cycle_to(Window::Search);
    assert_eq!(*c.item(), Window::Search);
    c.cycle_to(Window::Section);
    assert_eq!(*c.item(), Window::Section);
}

#[test]
fn cycle_to_absent_target_changes_nothing() {
    let mut c = CyclicState::new(vec![1u8, 2, 3], 2).unwrap();
    c.cycle_to(9);
    assert_eq!(*c.item(), 2);
}

#[test]
fn single_variant_cycles_onto_itself() {
    let mut c = CyclicState::new(vec![7u8], 7).unwrap();
    c.cycle();
    assert_eq!(*c.item(), 7);
    c.cycle_back();
    assert_eq!(*c.item(), 7);
}

#[test]
fn new_needs_the_item_among_the_variants() {
    assert!(CyclicState::new(Vec::<u8>::new(), 1).is_none());
    assert!(CyclicState::new(vec![1u8, 2], 3).is_none());
    let c = CyclicState::new(vec![1u8, 2, 2], 2).unwrap();
    assert_eq!(c.marks(), vec![false, true, false]);
}
