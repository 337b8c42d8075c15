use bitflagset::{Flag, Flags};

#[derive(Clone, Copy, Debug, PartialEq)]
enum SomeFlag {
    A,
    B,
    C,
    D,
    E,
    F,
    G,
    H,
    I,
    J,
    K,
    L,
    M,
    N,
}

const ALL: [SomeFlag; 14] = [
    SomeFlag::A,
    SomeFlag::B,
    SomeFlag::C,
    SomeFlag::D,
    SomeFlag::E,
    SomeFlag::F,
    SomeFlag::G,
    SomeFlag::H,
    SomeFlag::I,
    SomeFlag::J,
    SomeFlag::K,
    SomeFlag::L,
    SomeFlag::M,
    SomeFlag::N,
];

impl Default for SomeFlag {
    fn default() -> Self {
        SomeFlag::A
    }
}

impl Flag for SomeFlag {
    const SIZE: usize = 2;

    fn into_usize(&self) -> usize {
        *self as usize
    }
}

impl SomeFlag {
    fn debug_flags<const SIZE: usize>(flags: &Flags<SIZE>) {
        for f in ALL {
            if flags.has_flag(f) {
                println!("{:?}", f);
            }
        }
    }
}

/// A flag with an arbitrary index, for addressing bits past an enumeration.
#[derive(Clone, Copy, Default)]
struct Index(usize);

impl Flag for Index {
    const SIZE: usize = 0;

    fn into_usize(&self) -> usize {
        self.0
    }
}

fn present<const SIZE: usize>(flags: &Flags<SIZE>) -> Vec<SomeFlag> {
    ALL.iter().copied().filter(|f| flags.has_flag(*f)).collect()
}

#[test]
fn test() {
    let mut flags = Flags::<{ SomeFlag::SIZE }>::default();
    flags.add_flag(SomeFlag::N);
    flags.add_flag(SomeFlag::A);
    flags.add_flag(SomeFlag::H);
    flags.remove_flag(SomeFlag::H);

    SomeFlag::debug_flags(&flags);
}

#[test]
fn fourteen_members_set_and_clear() {
    let mut flags = Flags::<{ SomeFlag::SIZE }>::default();
    flags.add_flag(SomeFlag::N);
    flags.add_flag(SomeFlag::A);
    flags.add_flag(SomeFlag::H);
    flags.remove_flag(SomeFlag::H);
    assert!(!flags.has_flag(SomeFlag::H));
    assert!(flags.has_flag(SomeFlag::A));
    assert!(flags.has_flag(SomeFlag::N));
    assert_eq!(present(&flags), vec![SomeFlag::A, SomeFlag::N]);
    for i in 0..16 {
        assert_eq!(flags.has_flag(Index(i)), i == 0 || i == 13, "bit {}", i);
    }
    assert_eq!(flags.to_bit_string(), "1100000");
}

#[test]
fn required_byte_count_covers_members() {
    assert_eq!(SomeFlag::SIZE, 2);
    assert_eq!(SomeFlag::N.into_usize(), 13);
    assert_eq!(SomeFlag::A.into_usize(), 0);
}

#[test]
fn new_container_is_empty() {
    let flags = Flags::<2>::default();
    assert!(present(&flags).is_empty());
    for i in 0..40 {
        assert!(!flags.has_flag(Index(i)));
    }
    assert_eq!(flags.to_bit_string(), "00");
}

#[test]
fn set_then_has_only_that_flag() {
    for i in 0..16 {
        let mut flags = Flags::<2>::default();
        flags.add_flag(Index(i));
        for j in 0..24 {
            assert_eq!(flags.has_flag(Index(j)), i == j);
        }
    }
}

#[test]
fn clear_after_set_and_clear_when_clear() {
    let mut flags = Flags::<2>::default();
    flags.add_flag(SomeFlag::C);
    flags.add_flag(SomeFlag::J);
    flags.remove_flag(SomeFlag::C);
    assert!(!flags.has_flag(SomeFlag::C));
    assert!(flags.has_flag(SomeFlag::J));
    let before = flags.to_bit_string();
    flags.remove_flag(SomeFlag::C);
    flags.remove_flag(SomeFlag::D);
    assert_eq!(flags.to_bit_string(), before);
    assert_eq!(present(&flags), vec![SomeFlag::J]);
}

#[test]
fn set_twice_same_as_once() {
    let mut once = Flags::<2>::default();
    once.add_flag(SomeFlag::F);
    let mut twice = Flags::<2>::default();
    twice.add_flag(SomeFlag::F);
    twice.add_flag(SomeFlag::F);
    assert_eq!(once.to_bit_string(), twice.to_bit_string());
    assert_eq!(present(&once), present(&twice));
    assert_eq!(twice.to_bit_string(), "1000000");
}

#[test]
fn too_small_container_is_not_corrupted() {
    let mut flags = Flags::<1>::default();
    flags.add_flag(Index(3));
    assert_eq!(flags.to_bit_string(), "1000");
    flags.add_flag(SomeFlag::K);
    assert_eq!(flags.to_bit_string(), "1000");
    assert!(!flags.has_flag(SomeFlag::K));
    flags.remove_flag(SomeFlag::K);
    assert_eq!(flags.to_bit_string(), "1000");
    assert!(flags.has_flag(Index(3)));
}

#[test]
fn out_of_range_on_empty_container() {
    let mut flags = Flags::<0>::default();
    flags.add_flag(SomeFlag::A);
    assert!(!flags.has_flag(SomeFlag::A));
    flags.remove_flag(SomeFlag::A);
    assert_eq!(flags.to_bit_string(), "");
    let mut big = Flags::<1>::default();
    big.add_flag(Index(usize::MAX));
    assert!(!big.has_flag(Index(usize::MAX)));
    assert_eq!(big.to_bit_string(), "0");
}

#[test]
fn rendering_has_no_padding() {
    let mut flags = Flags::<3>::default();
    for i in 0..8 {
        flags.add_flag(Index(8 + i));
    }
    flags.add_flag(Index(0));
    flags.add_flag(Index(17));
    assert_eq!(flags.to_bit_string(), "11111111110");
    flags.remove_flag(Index(0));
    flags.remove_flag(Index(15));
    assert_eq!(flags.to_bit_string(), "0111111110");
}

#[test]
fn copies_are_independent() {
    let mut a = Flags::<2>::default();
    a.add_flag(SomeFlag::B);
    let mut b = a;
    b.add_flag(SomeFlag::M);
    assert!(!a.has_flag(SomeFlag::M));
    assert!(b.has_flag(SomeFlag::B));
    assert!(b.has_flag(SomeFlag::M));
}
