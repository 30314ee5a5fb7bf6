//! Motor models and the ranges of their MIT fields.
use vstd::prelude::*;
use vstd::string::*;

verus! {

/// A motor model.
#[derive(Debug, Clone, Copy, PartialEq, Eq, Structural)]
pub enum MotorModel {
    /// DM-J4310-2EC.
    Dm4310,
    /// DM-J3507-2EC.
    Dm3507,
}

/// Ranges of the MIT fields, in thousandths of their units. Position, velocity
/// and torque span `-max..=max`, the gains `0..=max`.
#[derive(Debug, Clone, Copy, PartialEq, Eq, Structural)]
pub struct Limits {
    /// Position, mrad.
    pub p_max: u32,
    /// Velocity, mrad/s.
    pub v_max: u32,
    /// Torque, mN m.
    pub t_max: u32,
    /// Kp, in thousandths of N m/rad.
    pub kp_max: u32,
    /// Kd, in thousandths of N m s/rad.
    pub kd_max: u32,
}

/// The limits of a model.
pub open spec fn limits_of(model: MotorModel) -> Limits {
    match model {
        MotorModel::Dm4310 => Limits {
            p_max: 12_500,
            v_max: 30_000,
            t_max: 10_000,
            kp_max: 500_000,
            kd_max: 5_000,
        },
        MotorModel::Dm3507 => Limits {
            p_max: 12_566,
            v_max: 50_000,
            t_max: 5_000,
            kp_max: 500_000,
            kd_max: 5_000,
        },
    }
}

/// How many bytes of a model name are looked at.
pub const NAME_LEN: usize = 32;

/// An ASCII letter in lower case, any other byte as it is.
pub open spec fn lower(b: u8) -> u8 {
    if 0x41 <= b <= 0x5A {
        (b + 0x20) as u8
    } else {
        b
    }
}

/// What is looked at of a model name: its first bytes, in lower case.
pub open spec fn name_key(name: Seq<u8>) -> Seq<u8> {
    (if name.len() > NAME_LEN {
        name.take(NAME_LEN as int)
    } else {
        name
    }).map_values(|b: u8| lower(b))
}

/// Whether `needle` occurs in `hay`.
pub open spec fn occurs(needle: Seq<u8>, hay: Seq<u8>) -> bool {
    exists|i: int|
        0 <= i <= hay.len() - needle.len() && #[trigger] hay.subrange(i, i + needle.len())
            == needle
}

/// The digits `4310`.
pub open spec fn digits_4310() -> Seq<u8> {
    seq![0x34, 0x33, 0x31, 0x30]
}

/// The digits `3507`.
pub open spec fn digits_3507() -> Seq<u8> {
    seq![0x33, 0x35, 0x30, 0x37]
}

/// The model that a name stands for.
pub open spec fn model_named(name: Seq<u8>) -> Option<MotorModel> {
    if occurs(digits_4310(), name_key(name)) {
        Some(MotorModel::Dm4310)
    } else if occurs(digits_3507(), name_key(name)) {
        Some(MotorModel::Dm3507)
    } else {
        None
    }
}

/// Names are told whatever their case.
pub proof fn law_names_ignore_case(name: Seq<u8>)
    ensures
        model_named(name.map_values(|b: u8| lower(b))) == model_named(name),
{
    let low = name.map_values(|b: u8| lower(b));
    assert(name_key(low) =~= name_key(name));
}

/// The first bytes of a name, in lower case.
fn lower_key(name: &[u8]) -> (r: Vec<u8>)
    ensures
        r@ == name_key(name@),
{
    let mut key: Vec<u8> = Vec::new();
    let mut i: usize = 0;
    while i < name.len() && i < NAME_LEN
        invariant
            i <= name.len(),
            i <= NAME_LEN,
            key.len() == i,
            forall|j: int| 0 <= j < i ==> #[trigger] key[j] == lower(name[j]),
        decreases name.len() - i,
    {
        let b: u8 = name[i];
        key.push(
            if 0x41 <= b && b <= 0x5A {
                b + 0x20
            } else {
                b
            },
        );
        i += 1;
    }
    assert(key@ =~= name_key(name@));
    key
}

/// Whether four bytes occur in `hay`.
fn contains4(hay: &[u8], needle: [u8; 4]) -> (r: bool)
    ensures
        r == occurs(needle@, hay@),
{
    if hay.len() < 4 {
        return false;
    }
    let last: usize = hay.len() - 4;
    let mut i: usize = 0;
    while i <= last
        invariant
            i <= last + 1,
            last + 4 == hay.len(),
            forall|j: int| 0 <= j < i ==> #[trigger] hay@.subrange(j, j + 4) != needle@,
        decreases last + 1 - i,
    {
        if hay[i] == needle[0] && hay[i + 1] == needle[1] && hay[i + 2] == needle[2] && hay[i + 3]
            == needle[3] {
            assert(hay@.subrange(i as int, i + 4) =~= needle@);
            return true;
        }
        proof {
            let w = hay@.subrange(i as int, i + 4);
            assert(w[0] == hay[i as int] && w[1] == hay[i + 1] && w[2] == hay[i + 2] && w[3]
                == hay[i + 3]);
        }
        i += 1;
    }
    false
}

impl MotorModel {
    /// The model that a name stands for: short name, part number or digits, in
    /// any case.
    pub fn from_name(s: &str) -> (r: Option<Self>)
        ensures
            r == model_named(s.spec_bytes()),
    {
        let key = lower_key(s.as_bytes());
        let a: [u8; 4] = [0x34, 0x33, 0x31, 0x30];
        let b: [u8; 4] = [0x33, 0x35, 0x30, 0x37];
        assert(a@ =~= digits_4310());
        assert(b@ =~= digits_3507());
        if contains4(key.as_slice(), a) {
            Some(MotorModel::Dm4310)
        } else if contains4(key.as_slice(), b) {
            Some(MotorModel::Dm3507)
        } else {
            None
        }
    }

    /// The short name.
    pub open spec fn name_text(self) -> Seq<char> {
        match self {
            MotorModel::Dm4310 => "DM4310"@,
            MotorModel::Dm3507 => "DM3507"@,
        }
    }

    /// The short name.
    pub fn name(&self) -> (r: &'static str)
        ensures
            r@ == self.name_text(),
    {
        match self {
            MotorModel::Dm4310 => "DM4310",
            MotorModel::Dm3507 => "DM3507",
        }
    }

    /// Whether the model can store its zero in flash.
    pub open spec fn stores_zero(self) -> bool {
        match self {
            MotorModel::Dm4310 => true,
            MotorModel::Dm3507 => true,
        }
    }

    /// Whether the model can store its zero in flash.
    pub fn supports_nvm_zero(&self) -> (r: bool)
        ensures
            r == self.stores_zero(),
    {
        match self {
            MotorModel::Dm4310 => true,
            MotorModel::Dm3507 => true,
        }
    }

    /// The limits of the model.
    pub fn limits(&self) -> (r: Limits)
        ensures
            r == limits_of(*self),
    {
        Limits::for_model(*self)
    }
}

impl Limits {
    /// The limits of a model.
    pub fn for_model(model: MotorModel) -> (r: Self)
        ensures
            r == limits_of(model),
    {
        match model {
            MotorModel::Dm4310 => Limits {
                p_max: 12_500,
                v_max: 30_000,
                t_max: 10_000,
                kp_max: 500_000,
                kd_max: 5_000,
            },
            MotorModel::Dm3507 => Limits {
                p_max: 12_566,
                v_max: 50_000,
                t_max: 5_000,
                kp_max: 500_000,
                kd_max: 5_000,
            },
        }
    }
}

/// A name that holds the digits 4310 within its first 32 bytes names the DM4310,
/// whatever stands around them; one that holds 3507 there names the DM3507, unless it
/// holds 4310 too.
pub proof fn law_digits_name_the_model(before: Seq<u8>, after: Seq<u8>)
    requires
        before.len() <= 28,
    ensures
        model_named(before + seq![0x34u8, 0x33, 0x31, 0x30] + after) == Some(MotorModel::Dm4310),
        model_named(before + seq![0x33u8, 0x35, 0x30, 0x37] + after) == (if occurs(
            seq![0x34u8, 0x33, 0x31, 0x30],
            name_key(before + seq![0x33u8, 0x35, 0x30, 0x37] + after),
        ) {
            Some(MotorModel::Dm4310)
        } else {
            Some(MotorModel::Dm3507)
        }),
{
    let n = before.len() as int;
    let a = name_key(before + seq![0x34u8, 0x33, 0x31, 0x30] + after);
    assert(a.subrange(n, n + 4) =~= digits_4310());
    let b = name_key(before + seq![0x33u8, 0x35, 0x30, 0x37] + after);
    assert(b.subrange(n, n + 4) =~= digits_3507());
}

/// A name that is no model's holds neither digits.
pub proof fn law_other_names_name_no_model(name: Seq<u8>)
    ensures
        model_named(name) is None <==> !occurs(seq![0x34u8, 0x33, 0x31, 0x30], name_key(name))
            && !occurs(seq![0x33u8, 0x35, 0x30, 0x37], name_key(name)),
        name.len() < 4 ==> model_named(name) is None,
{
    assert(seq![0x34u8, 0x33, 0x31, 0x30] =~= digits_4310());
    assert(seq![0x33u8, 0x35, 0x30, 0x37] =~= digits_3507());
}

/// The ranges of the models: positions of 12.5 and 12.566 rad, speeds of 30 and 50
/// rad/s, torques of 10 and 5 Nm; the gains have the same ranges.
pub proof fn law_ranges_of_the_models(model: MotorModel)
    ensures
        limits_of(model).p_max == (if model is Dm4310 {
            12_500int
        } else {
            12_566
        }),
        limits_of(model).v_max == (if model is Dm4310 {
            30int
        } else {
            50
        }) * 1000,
        limits_of(model).t_max == (if model is Dm4310 {
            10int
        } else {
            5
        }) * 1000,
        limits_of(model).kp_max == 500 * 1000,
        limits_of(model).kd_max == 5 * 1000,
        model.stores_zero(),
{
}

/// Lower case changes the 26 capital letters, each to its small letter, and no other
/// byte.
pub proof fn law_lower_case(b: u8)
    ensures
        'A' as u8 <= b <= 'Z' as u8 ==> lower(b) - 'a' as u8 == b - 'A' as u8,
        b < 'A' as u8 || b > 'Z' as u8 ==> lower(b) == b,
{
}

} // verus!
