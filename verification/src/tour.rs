//! A short tour: functions on integers, on pairs and on nothing, a loop, a
//! match, a struct with methods, an error passed on.  Each function
//! returns what a caller may want to print.

use vstd::prelude::*;

verus! {

/// The sum of two integers that has a place among them.
pub fn add(x: i32, y: i32) -> (r: i32)
    requires
        i32::MIN <= x + y <= i32::MAX,
    ensures
        r == x + y,
{
    return x + y;
}

/// The pair the other way round.
pub fn swap(x: i32, y: i32) -> (r: (i32, i32))
    ensures
        r == (y, x),
{
    (y, x)
}

/// Returns nothing, and says so.
pub fn make_nothing() {
    return ();
}

/// Returns nothing.
pub fn make_nothing2() {
}

/// Takes the middle of three numbers, by a literal place and by an index.
pub fn tour_array() {
    let nums: [i32; 3] = [1, 3, 5];
    let nums2: [i8; 3] = [1, 3, 5];
    let x: i8 = nums2[1];
    let index: usize = 1;
    let y: i32 = nums[index];
    assert(x == 3 && y == 3);
}

/// An even number is passed on; an odd one is an error, whose message
/// says that the input is not even.
pub fn do_something(i: i32) -> (r: Result<i32, String>)
    ensures
        r is Ok <==> i % 2 == 0,
        r matches Ok(v) ==> v == i,
        r matches Err(e) ==> e@ == "入力が偶数ではありません"@,
{
    if i % 2 == 0 {
        Ok(i)
    } else {
        Err("入力が偶数ではありません".to_owned())
    }
}

/// Values of the plain types: a truth value, integers of every width with
/// and without sign, a pair, a string.
pub fn types() {
    let my_bool: bool = true;
    let a: u8 = 255;
    let b: u16 = 0;
    let c: u32 = 4;
    let d: u64 = 6;
    let e: u128 = 2;
    let x: i8 = -1;
    let y: i16 = -2;
    let z: i32 = 1;
    let var_usize: usize = 0;
    let var_isize: isize = -1;
    let my_tuple: (u8, i8) = (a, x);
    let tex: &str = "aaa";
    assert(my_bool && my_tuple.0 == 255 && my_tuple.1 == -1);
}

/// Where a number lies beside 42.
#[derive(Clone, Copy, Debug, PartialEq, Eq, Structural)]
pub enum Beside42 {
    Below,
    Equal,
    Above,
}

/// Where `x` lies beside 42.
pub fn tour_if(x: i32) -> (r: Beside42)
    ensures
        r == if x < 42 {
            Beside42::Below
        } else if x == 42 {
            Beside42::Equal
        } else {
            Beside42::Above
        },
{
    if x < 42 {
        Beside42::Below
    } else if x == 42 {
        Beside42::Equal
    } else {
        Beside42::Above
    }
}

/// Counts up from zero until 42 is reached, and returns it.
pub fn tour_loop() -> (r: i32)
    ensures
        r == 42,
{
    let mut x: i32 = 0;
    loop
        invariant_except_break
            0 <= x < 42,
        ensures
            x == 42,
        decreases 42 - x,
    {
        x += 1;
        if x == 42 {
            break ;
        }
    }
    x
}

/// The arm of a match that a number takes.
#[derive(Clone, Copy, Debug, PartialEq, Eq, Structural)]
pub enum Arm {
    Zero,
    One,
    Two,
    ThreeToFour,
    Others,
}

/// The arm that `x` takes.
pub fn tour_match(x: i32) -> (r: Arm)
    ensures
        r == if x == 0 {
            Arm::Zero
        } else if x == 1 {
            Arm::One
        } else if x == 2 {
            Arm::Two
        } else if 3 <= x <= 4 {
            Arm::ThreeToFour
        } else {
            Arm::Others
        },
{
    match x {
        0 => Arm::Zero,
        1 => Arm::One,
        2 => Arm::Two,
        3..=4 => Arm::ThreeToFour,
        _ => Arm::Others,
    }
}

/// The value of a block, `1 + 2`, plus four.
pub fn tour_match2() -> (r: i32)
    ensures
        r == 7,
{
    let v: i32 = {
        let a: i32 = 1;
        let b: i32 = 2;
        a + b
    };
    v + 4
}

/// A struct with one number.
#[derive(Clone, Copy, Debug, PartialEq, Eq, Structural)]
pub struct MyStruct {
    pub num: i32,
}

impl MyStruct {
    /// The struct with the number 1.
    pub fn new() -> (r: MyStruct)
        ensures
            r.num == 1,
    {
        return MyStruct { num: 1 };
    }

    /// The number.
    pub fn m1(&self) -> (r: i32)
        ensures
            r == self.num,
    {
        self.num
    }

    /// The number plus `x`, where the sum has a place among the integers.
    pub fn m2(&self, x: i32) -> (r: i32)
        requires
            i32::MIN <= self.num + x <= i32::MAX,
        ensures
            r == self.num + x,
    {
        self.num + x
    }
}

/// The methods at work: the number of a struct made with 12, that number
/// plus 100, and the number of a new struct plus 100.
pub fn test_method() -> (r: (i32, i32, i32))
    ensures
        r == (12i32, 112i32, 101i32),
{
    let s = MyStruct { num: 12 };
    let first = s.m1();
    let second = s.m2(100);
    let t = MyStruct::new();
    let third = t.m2(100);
    (first, second, third)
}

/// An error is passed on to the caller: the number 3 is odd, and so
/// nothing comes of it.
pub fn simple_error_handling() -> (r: Result<(), String>)
    ensures
        r matches Err(e) && e@ == "入力が偶数ではありません"@,
{
    let input: i32 = 3;
    match do_something(input) {
        Ok(_) => Ok(()),
        Err(e) => Err(e),
    }
}

/// A struct that is borrowed and changed.
#[derive(Clone, Copy, Debug, PartialEq, Eq, Structural)]
pub struct Foo {
    pub x: i32,
}

/// Adds one to the number of the struct.
pub fn incre_foo(f: &mut Foo)
    requires
        old(f).x < i32::MAX,
    ensures
        final(f).x == old(f).x + 1,
{
    f.x += 1;
}

} // verus!
