use vstd::prelude::*;
use vstd::hash_map::StringHashMap;
use vstd::string::*;

verus! {

/// Number of bytes in the UTF-8 encoding of a string, as `str::len` reports it.
pub open spec fn byte_len(s: &String) -> usize {
    vstd::utf8::encode_utf8(s@).len() as usize
}

/// Returns `a` when it is longer than `b` in bytes, otherwise `b`.
pub fn longest(a: String, b: String) -> (r: String)
    ensures
        r == (if byte_len(&a) > byte_len(&b) { a } else { b }),
{
    let len_1 = a.as_str().len();
    let len_2 = b.as_str().len();
    if len_1 > len_2 {
        a
    } else {
        b
    }
}

/// The map built by inserting `pairs` in order: each key ends up with the
/// value of its last occurrence.
pub open spec fn grouped(pairs: Seq<(String, i32)>) -> Map<Seq<char>, i32>
    decreases pairs.len(),
{
    if pairs.len() == 0 {
        Map::empty()
    } else {
        grouped(pairs.drop_last()).insert(pairs.last().0@, pairs.last().1)
    }
}

/// Collects key/value pairs into a map; a later pair overrides an earlier one
/// with the same key.
pub fn group_by_values(vec: Vec<(String, i32)>) -> (r: StringHashMap<i32>)
    ensures
        r@ == grouped(vec@),
{
    let mut hm: StringHashMap<i32> = StringHashMap::new();
    let mut i: usize = 0;
    while i < vec.len()
        invariant
            i <= vec@.len(),
            hm@ == grouped(vec@.subrange(0, i as int)),
        decreases vec@.len() - i,
    {
        let key = vec[i].0.clone();
        let value = vec[i].1;
        hm.insert(key, value);
        proof {
            assert(vec@.subrange(0, i + 1).drop_last() =~= vec@.subrange(0, i as int));
        }
        i = i + 1;
    }
    proof {
        assert(vec@.subrange(0, vec@.len() as int) =~= vec@);
    }
    hm
}

/// The character of a decimal digit.
pub open spec fn digit_char(d: nat) -> char {
    seq!['0', '1', '2', '3', '4', '5', '6', '7', '8', '9'][d as int]
}

/// The decimal numeral of `n`, without sign or leading zeros.
pub open spec fn decimal(n: nat) -> Seq<char>
    decreases n,
{
    if n < 10 {
        seq![digit_char(n)]
    } else {
        decimal(n / 10).push(digit_char(n % 10))
    }
}

fn digit_str(d: u32) -> (r: &'static str)
    requires
        d < 10,
    ensures
        r@ == seq![digit_char(d as nat)],
{
    proof {
        reveal_strlit("0");
        reveal_strlit("1");
        reveal_strlit("2");
        reveal_strlit("3");
        reveal_strlit("4");
        reveal_strlit("5");
        reveal_strlit("6");
        reveal_strlit("7");
        reveal_strlit("8");
        reveal_strlit("9");
    }
    let r = match d {
        0 => "0",
        1 => "1",
        2 => "2",
        3 => "3",
        4 => "4",
        5 => "5",
        6 => "6",
        7 => "7",
        8 => "8",
        _ => "9",
    };
    assert(r@ =~= seq![digit_char(d as nat)]);
    r
}

/// The decimal numeral of `n` as a string.
pub fn decimal_string(n: u32) -> (r: String)
    ensures
        r@ == decimal(n as nat),
    decreases n,
{
    if n < 10 {
        String::from_str(digit_str(n))
    } else {
        let mut s = decimal_string(n / 10);
        s.append(digit_str(n % 10));
        s
    }
}

/// Something that can describe itself in one line.
pub trait Summary {
    spec fn summary(&self) -> Seq<char>;

    fn summarize(&self) -> (r: String)
        ensures
            r@ == self.summary(),
    ;
}

/// A named user of a given age.
#[derive(Clone, Debug)]
pub struct User {
    pub name: String,
    pub age: u32,
}

impl User {
    pub fn new(name: String, age: u32) -> (r: User)
        ensures
            r.name == name,
            r.age == age,
    {
        User { name, age }
    }
}

impl Summary for User {
    /// `name:<name>,age:<age>`.
    open spec fn summary(&self) -> Seq<char> {
        seq!['n', 'a', 'm', 'e', ':'] + self.name@ + seq![',', 'a', 'g', 'e', ':'] + decimal(
            self.age as nat,
        )
    }

    fn summarize(&self) -> (r: String) {
        proof {
            reveal_strlit("name:");
            reveal_strlit(",age:");
        }
        let mut s = String::from_str("name:");
        s.append(self.name.as_str());
        s.append(",age:");
        let age = decimal_string(self.age);
        s.append(age.as_str());
        assert(s@ =~= self.summary());
        s
    }
}

} // verus!
