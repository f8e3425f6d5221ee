//! Where a captured image is saved: the file-name conventions and the
//! image format chosen by the user.
use vstd::prelude::*;

verus! {

/// How the base path of a saved image is extended before the extension.
#[derive(Clone, Copy, PartialEq, Eq, Structural, Debug)]
pub enum Conventions {
    TimeConvention,
    DefaultConvention,
    NumericConvention,
}

/// The image format chosen for saving.
#[derive(Clone, Copy, PartialEq, Eq, Structural, Debug)]
pub enum MyRadio {
    Png,
    Jpeg,
    Gif,
}

/// The character of a decimal digit.
pub open spec fn digit_char(d: nat) -> char {
    if d == 0 {
        '0'
    } else if d == 1 {
        '1'
    } else if d == 2 {
        '2'
    } else if d == 3 {
        '3'
    } else if d == 4 {
        '4'
    } else if d == 5 {
        '5'
    } else if d == 6 {
        '6'
    } else if d == 7 {
        '7'
    } else if d == 8 {
        '8'
    } else {
        '9'
    }
}

/// The decimal text of a natural number, most significant digit first.
pub open spec fn decimal_digits(n: nat) -> Seq<char>
    decreases n,
{
    if n < 10 {
        seq![digit_char(n)]
    } else {
        decimal_digits(n / 10).push(digit_char(n % 10))
    }
}

/// The decimal text of an integer: a minus sign before negative numbers.
pub open spec fn decimal_text(n: int) -> Seq<char> {
    if n < 0 {
        seq!['-'] + decimal_digits((-n) as nat)
    } else {
        decimal_digits(n as nat)
    }
}

/// `i32::to_string`: the documentation of `Display` for integers gives the
/// plain decimal text, with a leading `-` for negative values.
#[verifier::external_body]
fn i32_text(n: i32) -> (s: String)
    ensures
        s@ == decimal_text(n as int),
{
    n.to_string()
}

pub open spec fn is_digit(c: char) -> bool {
    '0' <= c && c <= '9'
}

/// What every outcome of formatting a local time with `%d-%m-%Y_%H-%M`
/// looks like: two-digit day and month, a year of at least four characters,
/// then two-digit hour and minute.
pub open spec fn is_timestamp(s: Seq<char>) -> bool {
    &&& s.len() >= 16
    &&& is_digit(s[0]) && is_digit(s[1]) && s[2] == '-'
    &&& is_digit(s[3]) && is_digit(s[4]) && s[5] == '-'
    &&& s[s.len() - 6] == '_'
    &&& is_digit(s[s.len() - 5]) && is_digit(s[s.len() - 4])
    &&& s[s.len() - 3] == '-'
    &&& is_digit(s[s.len() - 2]) && is_digit(s[s.len() - 1])
}

/// `chrono::Local::now().format("%d-%m-%Y_%H-%M").to_string()`. The result
/// depends on the clock, so only its shape is stated, as chrono's strftime
/// table documents each field (`%d`, `%m`, `%H`, `%M` zero-padded to two
/// digits, `%Y` zero-padded to at least four).
#[verifier::external_body]
fn local_timestamp() -> (s: String)
    ensures
        is_timestamp(s@),
{
    chrono::Local::now().format("%d-%m-%Y_%H-%M").to_string()
}

/// Appends `_` and `suffix` to `path`.
fn with_suffix(path: String, suffix: &str) -> (r: String)
    ensures
        r@ == path@ + seq!['_'] + suffix@,
{
    let r = path.concat("_");
    proof {
        reveal_strlit("_");
    }
    r.concat(suffix)
}

/// The default convention keeps the path as it is.
pub fn default_convention(path: String) -> (r: String)
    ensures
        r@ == path@,
{
    let new_path = path;
    new_path
}

/// The time convention appends `_` and the given timestamp text.
pub fn time_convention_at(path: String, stamp: &str) -> (r: String)
    ensures
        r@ == path@ + seq!['_'] + stamp@,
{
    with_suffix(path, stamp)
}

/// The time convention with the local clock: the path, `_`, then a
/// timestamp of the shape `is_timestamp` describes.
pub fn time_convention(path: String) -> (r: String)
    ensures
        r@.len() > path@.len(),
        r@.subrange(0, path@.len() + 1int) == path@ + seq!['_'],
        is_timestamp(r@.subrange(path@.len() + 1int, r@.len() as int)),
{
    let now = local_timestamp();
    let r = time_convention_at(path, now.as_str());
    assert(r@.subrange(0, path@.len() + 1int) =~= path@ + seq!['_']);
    assert(r@.subrange(path@.len() + 1int, r@.len() as int) =~= now@);
    r
}


/// What the saving of an image depends on: the base path, the naming
/// convention, the image format and the counter of the numeric convention.
#[derive(Clone, Debug)]
pub struct SaveSettings {
    pub file_path: String,
    pub my_convention: Conventions,
    pub radio_group: MyRadio,
    pub counter: i32,
}

/// The numeric convention counts the saved images: it advances the
/// counter, then appends `_` and the counter's new value.
pub fn numeric_convention(path: String, data: &mut SaveSettings) -> (r: String)
    requires
        old(data).counter < i32::MAX,
    ensures
        final(data).counter == old(data).counter + 1,
        final(data).file_path@ == old(data).file_path@,
        final(data).my_convention == old(data).my_convention,
        final(data).radio_group == old(data).radio_group,
        r@ == path@ + seq!['_'] + decimal_text(final(data).counter as int),
{
    data.counter = data.counter + 1;
    let number = i32_text(data.counter);
    with_suffix(path, number.as_str())
}

/// The file extension of an image format.
pub open spec fn extension_of(format: MyRadio) -> Seq<char> {
    match format {
        MyRadio::Png => seq!['p', 'n', 'g'],
        MyRadio::Jpeg => seq!['j', 'p', 'e', 'g'],
        MyRadio::Gif => seq!['g', 'i', 'f'],
    }
}

/// The file extension of an image format, as text.
pub fn image_extension(format: MyRadio) -> (r: String)
    ensures
        r@ == extension_of(format),
{
    match format {
        MyRadio::Png => {
            proof {
                reveal_strlit("png");
            }
            String::from_str("png")
        },
        MyRadio::Jpeg => {
            proof {
                reveal_strlit("jpeg");
            }
            String::from_str("jpeg")
        },
        MyRadio::Gif => {
            proof {
                reveal_strlit("gif");
            }
            String::from_str("gif")
        },
    }
}

/// The base name (path with its convention applied, before the extension)
/// that the saving of an image uses, when the time convention reads `stamp`
/// from the clock and the numeric convention finds `counter`.
pub open spec fn base_name(
    path: Seq<char>,
    convention: Conventions,
    counter: int,
    stamp: Seq<char>,
) -> Seq<char> {
    match convention {
        Conventions::DefaultConvention => path,
        Conventions::TimeConvention => path + seq!['_'] + stamp,
        Conventions::NumericConvention => path + seq!['_'] + decimal_text(counter + 1),
    }
}

/// The full destination: base name, `.`, extension.
pub open spec fn destination(
    path: Seq<char>,
    convention: Conventions,
    format: MyRadio,
    counter: int,
    stamp: Seq<char>,
) -> Seq<char> {
    base_name(path, convention, counter, stamp) + seq!['.'] + extension_of(format)
}

/// The counter after an image has been saved.
pub open spec fn counter_after_save(convention: Conventions, counter: int) -> int {
    if convention == Conventions::NumericConvention {
        counter + 1
    } else {
        counter
    }
}

/// Where an image goes when it is saved, given the text that the clock gave
/// for the time convention (`stamp`; unused by the other conventions).
/// The numeric convention advances the counter.
pub fn save_destination_at(data: &mut SaveSettings, stamp: &str) -> (r: String)
    requires
        old(data).my_convention == Conventions::NumericConvention ==> old(data).counter < i32::MAX,
    ensures
        r@ == destination(
            old(data).file_path@,
            old(data).my_convention,
            old(data).radio_group,
            old(data).counter as int,
            stamp@,
        ),
        final(data).counter == counter_after_save(old(data).my_convention, old(data).counter as int),
        final(data).file_path@ == old(data).file_path@,
        final(data).my_convention == old(data).my_convention,
        final(data).radio_group == old(data).radio_group,
{
    let form = image_extension(data.radio_group);
    let new_path = match data.my_convention {
        Conventions::DefaultConvention => default_convention(data.file_path.clone()),
        Conventions::TimeConvention => time_convention_at(data.file_path.clone(), stamp),
        Conventions::NumericConvention => numeric_convention(data.file_path.clone(), data),
    };
    let dotted = new_path.concat(".");
    proof {
        reveal_strlit(".");
    }
    dotted.concat(form.as_str())
}

/// Where an image goes when it is saved now. With the time convention the
/// local clock is read: the destination is then the one `destination`
/// gives for some timestamp of the documented shape.
pub fn save_destination(data: &mut SaveSettings) -> (r: String)
    requires
        old(data).my_convention == Conventions::NumericConvention ==> old(data).counter < i32::MAX,
    ensures
        old(data).my_convention != Conventions::TimeConvention ==> r@ == destination(
            old(data).file_path@,
            old(data).my_convention,
            old(data).radio_group,
            old(data).counter as int,
            Seq::empty(),
        ),
        old(data).my_convention == Conventions::TimeConvention ==> exists|stamp: Seq<char>|
            is_timestamp(stamp) && r@ == #[trigger] destination(
                old(data).file_path@,
                old(data).my_convention,
                old(data).radio_group,
                old(data).counter as int,
                stamp,
            ),
        final(data).counter == counter_after_save(old(data).my_convention, old(data).counter as int),
        final(data).file_path@ == old(data).file_path@,
        final(data).my_convention == old(data).my_convention,
        final(data).radio_group == old(data).radio_group,
{
    if data.my_convention == Conventions::TimeConvention {
        let now = local_timestamp();
        save_destination_at(data, now.as_str())
    } else {
        proof {
            reveal_strlit("");
        }
        save_destination_at(data, "")
    }
}

} // verus!
