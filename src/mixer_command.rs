use vstd::prelude::*;
use vstd::string::StringExecFns;

verus! {

/// The character of the decimal digit `d`.
pub open spec fn digit_char(d: nat) -> char {
    if d == 0 {
        '0'
    } else if d == 1 {
        '1'
    } else if d == 2 {
        '2'
    } else if d == 3 {
        '3'
    } else if d == 4 {
        '4'
    } else if d == 5 {
        '5'
    } else if d == 6 {
        '6'
    } else if d == 7 {
        '7'
    } else if d == 8 {
        '8'
    } else {
        '9'
    }
}

/// `v` written in decimal, without leading zeros.
pub open spec fn decimal(v: nat) -> Seq<char>
    decreases v,
{
    if v < 10 {
        seq![digit_char(v)]
    } else {
        decimal(v / 10).push(digit_char(v % 10))
    }
}

/// The mixer's arguments: the perceptual-mapping flag if asked for, the
/// sound card, then `tail`.
pub open spec fn mixer_args(natural_mapping: bool, device: Seq<char>, tail: Seq<Seq<char>>) -> Seq<
    Seq<char>,
> {
    (if natural_mapping {
        seq!["-M"@]
    } else {
        Seq::empty()
    }) + seq!["-D"@, device] + tail
}

pub open spec fn views(v: Seq<String>) -> Seq<Seq<char>> {
    v.map_values(|s: String| s@)
}

fn digit_text(d: u32) -> (r: &'static str)
    requires
        d < 10,
    ensures
        r@ == seq![digit_char(d as nat)],
{
    proof {
        reveal_strlit("0");
        reveal_strlit("1");
        reveal_strlit("2");
        reveal_strlit("3");
        reveal_strlit("4");
        reveal_strlit("5");
        reveal_strlit("6");
        reveal_strlit("7");
        reveal_strlit("8");
        reveal_strlit("9");
    }
    let r = if d == 0 {
        "0"
    } else if d == 1 {
        "1"
    } else if d == 2 {
        "2"
    } else if d == 3 {
        "3"
    } else if d == 4 {
        "4"
    } else if d == 5 {
        "5"
    } else if d == 6 {
        "6"
    } else if d == 7 {
        "7"
    } else if d == 8 {
        "8"
    } else {
        "9"
    };
    assert(r@ =~= seq![digit_char(d as nat)]);
    r
}

/// `v` written in decimal.
pub fn decimal_text(v: u32) -> (r: String)
    ensures
        r@ == decimal(v as nat),
    decreases v,
{
    if v < 10 {
        let mut s = String::new();
        s.append(digit_text(v));
        assert(s@ =~= decimal(v as nat));
        s
    } else {
        let mut s = decimal_text(v / 10);
        s.append(digit_text(v % 10));
        assert(s@ =~= decimal(v as nat));
        s
    }
}

/// Prefixes `tail` with the flag and sound-card arguments.
fn with_device(natural_mapping: bool, device: &String, tail: Vec<String>) -> (r: Vec<String>)
    ensures
        views(r@) == mixer_args(natural_mapping, device@, views(tail@)),
{
    let mut r: Vec<String> = Vec::new();
    if natural_mapping {
        r.push("-M".to_owned());
    }
    r.push("-D".to_owned());
    r.push(device.clone());
    let ghost head = views(r@);
    let mut i: usize = 0;
    while i < tail.len()
        invariant
            i <= tail@.len(),
            head == (if natural_mapping {
                seq!["-M"@]
            } else {
                Seq::<Seq<char>>::empty()
            }) + seq!["-D"@, device@],
            views(r@) == head + views(tail@).take(i as int),
        decreases tail.len() - i,
    {
        let ghost prev = r@;
        r.push(tail[i].clone());
        assert(views(r@) =~= views(prev).push(tail@[i as int]@));
        assert(views(tail@).take(i + 1) =~= views(tail@).take(i as int).push(tail@[i as int]@));
        i = i + 1;
    }
    assert(views(tail@).take(i as int) =~= views(tail@));
    assert(views(r@) =~= mixer_args(natural_mapping, device@, views(tail@)));
    r
}

/// Arguments that ask the mixer for the state of control `name` on `device`.
pub fn query_args(name: &String, device: &String, natural_mapping: bool) -> (r: Vec<String>)
    ensures
        views(r@) == mixer_args(natural_mapping, device@, seq!["get"@, name@]),
{
    let tail = vec!["get".to_owned(), name.clone()];
    assert(views(tail@) =~= seq!["get"@, name@]);
    with_device(natural_mapping, device, tail)
}

/// Arguments that set control `name` on `device` to `volume` percent.
pub fn set_volume_args(name: &String, device: &String, natural_mapping: bool, volume: u32) -> (r: Vec<
    String,
>)
    ensures
        views(r@) == mixer_args(natural_mapping, device@, seq!["set"@, name@, decimal(volume as nat) + "%"@]),
{
    let mut percent = decimal_text(volume);
    percent.append("%");
    let tail = vec!["set".to_owned(), name.clone(), percent];
    assert(views(tail@) =~= seq!["set"@, name@, decimal(volume as nat) + "%"@]);
    with_device(natural_mapping, device, tail)
}

/// Arguments that toggle the mute switch of control `name` on `device`.
pub fn toggle_args(name: &String, device: &String, natural_mapping: bool) -> (r: Vec<String>)
    ensures
        views(r@) == mixer_args(natural_mapping, device@, seq!["set"@, name@, "toggle"@]),
{
    let tail = vec!["set".to_owned(), name.clone(), "toggle".to_owned()];
    assert(views(tail@) =~= seq!["set"@, name@, "toggle"@]);
    with_device(natural_mapping, device, tail)
}

} // verus!
