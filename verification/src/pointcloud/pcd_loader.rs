//! What a PCD header decides before any point is read: the encoding, the
//! position fields, where colours come from, and the errors a header that
//! cannot be loaded gets; and the decoding of packed colours.

use vstd::prelude::*;
use vstd::arithmetic::div_mod::lemma_fundamental_div_mod_converse;
use vstd::string::StringExecFns;
use crate::text::{decimal, join_strings, joined, push_decimal, str_eq, strings_of};

verus! {

/// How the point records of a PCD file are stored.
#[derive(Debug, Clone, Copy, PartialEq, Eq)]
pub enum PcdEncoding {
    Ascii,
    Binary,
}

/// The name an encoding is shown by.
pub open spec fn encoding_name(e: PcdEncoding) -> Seq<char> {
    match e {
        PcdEncoding::Ascii => "ASCII"@,
        PcdEncoding::Binary => "Binary"@,
    }
}

impl PcdEncoding {
    /// `"ASCII"` or `"Binary"`.
    pub fn as_str(&self) -> (r: &'static str)
        ensures
            r@ == encoding_name(*self),
    {
        match self {
            PcdEncoding::Ascii => "ASCII",
            PcdEncoding::Binary => "Binary",
        }
    }
}

/// Why a PCD file could not be loaded.
#[derive(Debug, Clone)]
pub struct PcdLoadError(pub String);

impl PcdLoadError {
    /// The text of the error.
    pub fn message(&self) -> (r: &str)
        ensures
            r@ == self.0@,
    {
        self.0.as_str()
    }
}

/// The data section kinds a PCD header may declare.
#[derive(Debug, Clone, Copy, PartialEq, Eq)]
pub enum PcdDataKind {
    Ascii,
    Binary,
    BinaryCompressed,
}

/// The value types a PCD field may have.
#[derive(Debug, Clone, Copy, PartialEq, Eq)]
pub enum PcdValueKind {
    U8,
    U16,
    U32,
    U64,
    I8,
    I16,
    I32,
    I64,
    F32,
    F64,
}

/// One field of a PCD header.
#[derive(Debug, Clone)]
pub struct PcdFieldSpec {
    pub name: String,
    pub kind: PcdValueKind,
    pub count: u64,
}

/// A field as a value.
pub struct FieldView {
    pub name: Seq<char>,
    pub kind: PcdValueKind,
    pub count: u64,
}

impl View for PcdFieldSpec {
    type V = FieldView;

    open spec fn view(&self) -> FieldView {
        FieldView { name: self.name@, kind: self.kind, count: self.count }
    }
}

/// Where the colour of each point comes from; indices count the fields
/// that are not padding.
#[derive(Debug, Clone, Copy, PartialEq, Eq)]
pub enum ColorSource {
    Packed { index: usize, alpha: bool },
    Separate { r: usize, g: usize, b: usize, a: Option<usize> },
    Intensity(usize),
    Height,
}

impl ColorSource {
    /// Whether colours are computed after all points are read, from
    /// per-point values (intensity or height), rather than read per point.
    pub fn uses_fallback_values(&self) -> (r: bool)
        ensures
            r == (*self is Intensity || *self is Height),
    {
        match self {
            ColorSource::Intensity(_) | ColorSource::Height => true,
            _ => false,
        }
    }
}

/// What the header decides.
#[derive(Debug, Clone, Copy, PartialEq, Eq)]
pub struct PcdSchema {
    pub encoding: PcdEncoding,
    pub declared_points: u64,
    pub x: usize,
    pub y: usize,
    pub z: usize,
    pub color: ColorSource,
}

/// The fields as values.
pub open spec fn fields_view(fields: Seq<PcdFieldSpec>) -> Seq<FieldView> {
    fields.map_values(|s: PcdFieldSpec| s@)
}

/// Padding fields are named `_`.
pub open spec fn is_padding_name(name: Seq<char>) -> bool {
    name == "_"@
}

/// Whether a field is padding.
pub fn is_padding(field: &PcdFieldSpec) -> (r: bool)
    ensures
        r == is_padding_name(field@.name),
{
    str_eq(field.name.as_str(), "_")
}

/// The fields that are not padding, in order.
pub open spec fn data_fields(fields: Seq<FieldView>) -> Seq<FieldView>
    decreases fields.len(),
{
    if fields.len() == 0 {
        Seq::empty()
    } else {
        let rest = data_fields(fields.drop_last());
        if is_padding_name(fields.last().name) {
            rest
        } else {
            rest.push(fields.last())
        }
    }
}

/// The names of the fields.
pub open spec fn names_of(fields: Seq<FieldView>) -> Seq<Seq<char>> {
    fields.map_values(|f: FieldView| f.name)
}

/// The position of the first field with the given name.
pub open spec fn first_index(fields: Seq<FieldView>, name: Seq<char>) -> Option<int>
    decreases fields.len(),
{
    if fields.len() == 0 {
        None
    } else {
        match first_index(fields.drop_last(), name) {
            Some(i) => Some(i),
            None => if fields.last().name == name {
                Some(fields.len() - 1)
            } else {
                None
            },
        }
    }
}

/// The error of a field that must hold one value per point and does not.
pub open spec fn scalar_error(name: Seq<char>, count: u64) -> Seq<char> {
    "field "@ + name + " must be scalar, found count "@ + decimal(count as nat)
}

/// The error of a header without all three position fields.
pub open spec fn missing_xyz_error(fields: Seq<FieldView>) -> Seq<char> {
    "required fields x, y, z; discovered fields: "@ + joined(names_of(fields))
}

/// The error of an ASCII header with a packed colour stored as a float.
pub open spec fn ascii_packed_error(name: Seq<char>) -> Seq<char> {
    "ASCII packed "@ + name
        + ":F32 cannot preserve color payload bits (including NaN alpha patterns); use U32 or I32 for ASCII, or use binary PCD for packed F32 colors"@
}

/// The named field, which must hold one value per point.
pub open spec fn scalar_check(f: Seq<FieldView>, i: int, name: Seq<char>) -> Option<Seq<char>> {
    if f[i].count != 1 {
        Some(scalar_error(name, f[i].count))
    } else {
        None
    }
}

/// The colour source of the data fields: a packed `rgba`, else a packed
/// `rgb`, else separate `r`, `g`, `b` (with `a` when present), else
/// `intensity`, else the height.
pub open spec fn color_choice(f: Seq<FieldView>) -> Result<ColorSource, Seq<char>> {
    let rgba = first_index(f, "rgba"@);
    let rgb = first_index(f, "rgb"@);
    let r = first_index(f, "r"@);
    let g = first_index(f, "g"@);
    let b = first_index(f, "b"@);
    let intensity = first_index(f, "intensity"@);
    if rgba is Some {
        let i = rgba->0;
        if f[i].count != 1 {
            Err(scalar_error("rgba"@, f[i].count))
        } else {
            Ok(ColorSource::Packed { index: i as usize, alpha: true })
        }
    } else if rgb is Some {
        let i = rgb->0;
        if f[i].count != 1 {
            Err(scalar_error("rgb"@, f[i].count))
        } else {
            Ok(ColorSource::Packed { index: i as usize, alpha: false })
        }
    } else if r is Some && g is Some && b is Some {
        separate_choice(f, r->0, g->0, b->0)
    } else if intensity is Some {
        let i = intensity->0;
        if f[i].count != 1 {
            Err(scalar_error("intensity"@, f[i].count))
        } else {
            Ok(ColorSource::Intensity(i as usize))
        }
    } else {
        Ok(ColorSource::Height)
    }
}

/// What a header decides, or why it cannot be loaded.
pub open spec fn schema_of(data: PcdDataKind, declared_points: u64, all: Seq<FieldView>) -> Result<PcdSchema, Seq<char>> {
    let f = data_fields(all);
    let ix = first_index(f, "x"@);
    let iy = first_index(f, "y"@);
    let iz = first_index(f, "z"@);
    let encoding = if data is Ascii {
        PcdEncoding::Ascii
    } else {
        PcdEncoding::Binary
    };
    if data is BinaryCompressed {
        Err("unsupported PCD encoding binary_compressed"@)
    } else if !(ix is Some && iy is Some && iz is Some) {
        Err(missing_xyz_error(f))
    } else if f[ix->0].count != 1 {
        Err(scalar_error("x"@, f[ix->0].count))
    } else if f[iy->0].count != 1 {
        Err(scalar_error("y"@, f[iy->0].count))
    } else if f[iz->0].count != 1 {
        Err(scalar_error("z"@, f[iz->0].count))
    } else {
        match color_choice(f) {
            Err(e) => Err(e),
            Ok(color) => if encoding is Ascii && color is Packed && f[color->index as int].kind
                is F32 {
                Err(ascii_packed_error(f[color->index as int].name))
            } else {
                Ok(PcdSchema {
                    encoding,
                    declared_points,
                    x: ix->0 as usize,
                    y: iy->0 as usize,
                    z: iz->0 as usize,
                    color,
                })
            },
        }
    }
}

/// A first index found in a prefix is the first index of the whole.
pub proof fn lemma_first_index_prefix(f: Seq<FieldView>, k: int, name: Seq<char>)
    requires
        0 <= k <= f.len(),
        first_index(f.take(k), name) is Some,
    ensures
        first_index(f, name) == first_index(f.take(k), name),
    decreases f.len() - k,
{
    if k < f.len() {
        assert(f.take(k + 1).drop_last() =~= f.take(k));
        lemma_first_index_prefix(f, k + 1, name);
    } else {
        assert(f.take(k) =~= f);
    }
}

/// The first index, when there is one, is in range and names the field.
pub proof fn lemma_first_index_found(f: Seq<FieldView>, name: Seq<char>)
    ensures
        first_index(f, name) matches Some(i) ==> 0 <= i < f.len() && f[i].name == name,
    decreases f.len(),
{
    if f.len() > 0 {
        lemma_first_index_found(f.drop_last(), name);
    }
}

/// Dropping padding never lengthens the field list.
proof fn lemma_data_fields_len(fields: Seq<FieldView>)
    ensures
        data_fields(fields).len() <= fields.len(),
    decreases fields.len(),
{
    if fields.len() > 0 {
        lemma_data_fields_len(fields.drop_last());
    }
}

/// Field `i` exists, is named `n` and holds one value per point.
pub open spec fn names_field(f: Seq<FieldView>, i: usize, n: Seq<char>) -> bool {
    i < f.len() && f[i as int].name == n && f[i as int].count == 1
}

/// A header that loads points x, y and z at the fields so named, each one
/// value per point, and takes colours from the fields that name them: packed
/// `rgba` (with alpha) before packed `rgb`, then separate `r`, `g`, `b` (and
/// `a` when present), then `intensity`, and the point height only when none
/// of those is there. Padding fields are skipped, and compressed binary data
/// is refused.
pub proof fn law_schema_reads_the_named_fields(data: PcdDataKind, declared_points: u64, all: Seq<FieldView>)
    requires
        all.len() <= usize::MAX,
    ensures
        data is BinaryCompressed ==> schema_of(data, declared_points, all) is Err,
        schema_of(data, declared_points, all) matches Ok(s) ==> {
            let f = data_fields(all);
            &&& s.declared_points == declared_points
            &&& s.encoding == (if data is Ascii { PcdEncoding::Ascii } else { PcdEncoding::Binary })
            &&& names_field(f, s.x, "x"@) && names_field(f, s.y, "y"@) && names_field(f, s.z, "z"@)
            &&& (s.color matches ColorSource::Packed { index, alpha } ==> {
                &&& names_field(f, index, if alpha { "rgba"@ } else { "rgb"@ })
                &&& !alpha ==> first_index(f, "rgba"@) is None
            })
            &&& (s.color matches ColorSource::Separate { r, g, b, a } ==> {
                &&& names_field(f, r, "r"@) && names_field(f, g, "g"@) && names_field(f, b, "b"@)
                &&& (a matches Some(ai) ==> names_field(f, ai, "a"@))
                &&& (a is None ==> first_index(f, "a"@) is None)
                &&& first_index(f, "rgba"@) is None && first_index(f, "rgb"@) is None
            })
            &&& (s.color matches ColorSource::Intensity(i) ==> {
                &&& names_field(f, i, "intensity"@)
                &&& first_index(f, "rgba"@) is None && first_index(f, "rgb"@) is None
                &&& !(first_index(f, "r"@) is Some && first_index(f, "g"@) is Some && first_index(f, "b"@) is Some)
            })
            &&& (s.color is Height ==> {
                &&& first_index(f, "rgba"@) is None && first_index(f, "rgb"@) is None
                &&& first_index(f, "intensity"@) is None
                &&& !(first_index(f, "r"@) is Some && first_index(f, "g"@) is Some && first_index(f, "b"@) is Some)
            })
        },
{
    let f = data_fields(all);
    lemma_data_fields_len(all);
    lemma_first_index_found(f, "x"@);
    lemma_first_index_found(f, "y"@);
    lemma_first_index_found(f, "z"@);
    lemma_first_index_found(f, "rgba"@);
    lemma_first_index_found(f, "rgb"@);
    lemma_first_index_found(f, "r"@);
    lemma_first_index_found(f, "g"@);
    lemma_first_index_found(f, "b"@);
    lemma_first_index_found(f, "a"@);
    lemma_first_index_found(f, "intensity"@);
    if schema_of(data, declared_points, all) is Ok {
        let c = color_choice(f);
        assert(c is Ok);
        let ri = first_index(f, "r"@);
        let gi = first_index(f, "g"@);
        let bi = first_index(f, "b"@);
        if first_index(f, "rgba"@) is None && first_index(f, "rgb"@) is None && ri is Some && gi is Some && bi is Some {
            assert(c == separate_choice(f, ri->0, gi->0, bi->0));
        }
    }
}

fn find_field(f: &Vec<PcdFieldSpec>, name: &str) -> (r: Option<usize>)
    ensures
        r is Some <==> first_index(fields_view(f@), name@) is Some,
        r matches Some(i) ==> first_index(fields_view(f@), name@) == Some(i as int) && i < f@.len(),
{
    let ghost v = fields_view(f@);
    let mut i: usize = 0;
    while i < f.len()
        invariant
            i <= f@.len(),
            v == fields_view(f@),
            first_index(v.take(i as int), name@) is None,
        decreases f@.len() - i,
    {
        proof {
            assert(v.take(i as int + 1).drop_last() =~= v.take(i as int));
        }
        if str_eq(f[i].name.as_str(), name) {
            proof {
                lemma_first_index_prefix(v, i as int + 1, name@);
            }
            return Some(i);
        }
        i = i + 1;
    }
    assert(v.take(f@.len() as int) =~= v);
    None
}

fn scalar_message(name: &str, count: u64) -> (r: String)
    ensures
        r@ == scalar_error(name@, count),
{
    let mut s = String::from_str("field ");
    s.append(name);
    s.append(" must be scalar, found count ");
    push_decimal(&mut s, count);
    s
}

fn data_field_list(all: &Vec<PcdFieldSpec>) -> (r: Vec<PcdFieldSpec>)
    ensures
        fields_view(r@) == data_fields(fields_view(all@)),
{
    let ghost v = fields_view(all@);
    let mut out: Vec<PcdFieldSpec> = Vec::new();
    let mut i: usize = 0;
    while i < all.len()
        invariant
            i <= all@.len(),
            v == fields_view(all@),
            fields_view(out@) == data_fields(v.take(i as int)),
        decreases all@.len() - i,
    {
        proof {
            assert(v.take(i as int + 1).drop_last() =~= v.take(i as int));
        }
        if !is_padding(&all[i]) {
            let field = PcdFieldSpec {
                name: all[i].name.clone(),
                kind: all[i].kind,
                count: all[i].count,
            };
            let ghost before = out@;
            out.push(field);
            proof {
                assert(fields_view(out@) =~= before.map_values(|s: PcdFieldSpec| s@).push(v[i as int]));
            }
        }
        i = i + 1;
    }
    assert(v.take(all@.len() as int) =~= v);
    out
}

fn field_names(f: &Vec<PcdFieldSpec>) -> (r: Vec<String>)
    ensures
        r@.map_values(|t: String| t@) == names_of(fields_view(f@)),
{
    let mut out: Vec<String> = Vec::new();
    let mut i: usize = 0;
    while i < f.len()
        invariant
            i <= f@.len(),
            out@.len() == i,
            forall|j: int| 0 <= j < i ==> out@[j]@ == f@[j]@.name,
        decreases f@.len() - i,
    {
        out.push(f[i].name.clone());
        i = i + 1;
    }
    assert(out@.map_values(|t: String| t@) =~= names_of(fields_view(f@)));
    out
}

fn check_scalar(f: &Vec<PcdFieldSpec>, i: usize, name: &str) -> (r: Result<(), PcdLoadError>)
    requires
        i < f@.len(),
    ensures
        match r {
            Ok(()) => f@[i as int].count == 1,
            Err(e) => f@[i as int].count != 1 && e.0@ == scalar_error(name@, f@[i as int].count),
        },
{
    if f[i].count == 1 {
        Ok(())
    } else {
        Err(PcdLoadError(scalar_message(name, f[i].count)))
    }
}

/// The separate-channel colour source, once `r`, `g` and `b` are found.
pub open spec fn separate_choice(f: Seq<FieldView>, r: int, g: int, b: int) -> Result<ColorSource, Seq<char>> {
    let a = first_index(f, "a"@);
    if f[r].count != 1 {
        Err(scalar_error("r"@, f[r].count))
    } else if f[g].count != 1 {
        Err(scalar_error("g"@, f[g].count))
    } else if f[b].count != 1 {
        Err(scalar_error("b"@, f[b].count))
    } else if a is Some && f[a->0].count != 1 {
        Err(scalar_error("a"@, f[a->0].count))
    } else {
        Ok(ColorSource::Separate {
            r: r as usize,
            g: g as usize,
            b: b as usize,
            a: if a is Some {
                Some(a->0 as usize)
            } else {
                None
            },
        })
    }
}

fn choose_separate(f: &Vec<PcdFieldSpec>, r: usize, g: usize, b: usize) -> (res: Result<ColorSource, PcdLoadError>)
    requires
        r < f@.len(),
        g < f@.len(),
        b < f@.len(),
    ensures
        match separate_choice(fields_view(f@), r as int, g as int, b as int) {
            Ok(c) => res == Ok::<ColorSource, PcdLoadError>(c),
            Err(e) => res matches Err(x) && x.0@ == e,
        },
{
    let ghost v = fields_view(f@);
    proof {
        lemma_first_index_found(v, "a"@);
    }
    match check_scalar(f, r, "r") {
        Ok(()) => {},
        Err(e) => {
            return Err(e);
        },
    }
    match check_scalar(f, g, "g") {
        Ok(()) => {},
        Err(e) => {
            return Err(e);
        },
    }
    match check_scalar(f, b, "b") {
        Ok(()) => {},
        Err(e) => {
            return Err(e);
        },
    }
    let a = find_field(f, "a");
    match a {
        Some(ai) => match check_scalar(f, ai, "a") {
            Ok(()) => {},
            Err(e) => {
                return Err(e);
            },
        },
        None => {},
    }
    Ok(ColorSource::Separate { r, g, b, a })
}

fn choose_color(f: &Vec<PcdFieldSpec>) -> (res: Result<ColorSource, PcdLoadError>)
    ensures
        match color_choice(fields_view(f@)) {
            Ok(c) => res == Ok::<ColorSource, PcdLoadError>(c),
            Err(e) => res matches Err(x) && x.0@ == e,
        },
        res matches Ok(ColorSource::Packed { index, alpha: _ }) ==> index < f@.len(),
{
    let ghost v = fields_view(f@);
    proof {
        lemma_first_index_found(v, "rgba"@);
        lemma_first_index_found(v, "rgb"@);
        lemma_first_index_found(v, "r"@);
        lemma_first_index_found(v, "g"@);
        lemma_first_index_found(v, "b"@);
        lemma_first_index_found(v, "intensity"@);
    }
    if let Some(i) = find_field(f, "rgba") {
        match check_scalar(f, i, "rgba") {
            Ok(()) => Ok(ColorSource::Packed { index: i, alpha: true }),
            Err(e) => Err(e),
        }
    } else if let Some(i) = find_field(f, "rgb") {
        match check_scalar(f, i, "rgb") {
            Ok(()) => Ok(ColorSource::Packed { index: i, alpha: false }),
            Err(e) => Err(e),
        }
    } else {
        let ri = find_field(f, "r");
        let gi = find_field(f, "g");
        let bi = find_field(f, "b");
        match (ri, gi, bi) {
            (Some(r), Some(g), Some(b)) => choose_separate(f, r, g, b),
            _ => {
                if let Some(i) = find_field(f, "intensity") {
                    match check_scalar(f, i, "intensity") {
                        Ok(()) => Ok(ColorSource::Intensity(i)),
                        Err(e) => Err(e),
                    }
                } else {
                    Ok(ColorSource::Height)
                }
            },
        }
    }
}

fn ascii_packed_message(name: &str) -> (r: String)
    ensures
        r@ == ascii_packed_error(name@),
{
    let mut s = String::from_str("ASCII packed ");
    s.append(name);
    s.append(
        ":F32 cannot preserve color payload bits (including NaN alpha patterns); use U32 or I32 for ASCII, or use binary PCD for packed F32 colors",
    );
    s
}

/// Reads a PCD header: the encoding, the point count it declares and its
/// fields. Padding fields (named `_`) are left out before field positions
/// are counted. Fails for a compressed binary body, for missing `x`, `y` or
/// `z` (naming the fields found), for a position or colour field that holds
/// more than one value per point, and for a packed colour stored as a float
/// in an ASCII body, whose bit pattern the text cannot carry.
pub fn analyze_schema(data: PcdDataKind, declared_points: u64, fields: &Vec<PcdFieldSpec>) -> (r: Result<PcdSchema, PcdLoadError>)
    ensures
        match schema_of(data, declared_points, fields_view(fields@)) {
            Ok(s) => r == Ok::<PcdSchema, PcdLoadError>(s),
            Err(e) => r matches Err(x) && x.0@ == e,
        },
{
    let encoding = match data {
        PcdDataKind::Ascii => PcdEncoding::Ascii,
        PcdDataKind::Binary => PcdEncoding::Binary,
        PcdDataKind::BinaryCompressed => {
            return Err(PcdLoadError(String::from_str("unsupported PCD encoding binary_compressed")));
        },
    };
    let f = data_field_list(fields);
    let ghost v = fields_view(f@);
    proof {
        lemma_first_index_found(v, "x"@);
        lemma_first_index_found(v, "y"@);
        lemma_first_index_found(v, "z"@);
    }
    let ix = find_field(&f, "x");
    let iy = find_field(&f, "y");
    let iz = find_field(&f, "z");
    let (x, y, z) = match (ix, iy, iz) {
        (Some(x), Some(y), Some(z)) => (x, y, z),
        _ => {
            let names = field_names(&f);
            let mut s = String::from_str("required fields x, y, z; discovered fields: ");
            let list = join_strings(&names);
            s.append(list.as_str());
            proof {
                assert(strings_of(names@) == names@.map_values(|t: String| t@));
            }
            return Err(PcdLoadError(s));
        },
    };
    if let Err(e) = check_scalar(&f, x, "x") {
        return Err(e);
    }
    if let Err(e) = check_scalar(&f, y, "y") {
        return Err(e);
    }
    if let Err(e) = check_scalar(&f, z, "z") {
        return Err(e);
    }
    let color = match choose_color(&f) {
        Ok(c) => c,
        Err(e) => {
            return Err(e);
        },
    };
    if let ColorSource::Packed { index, alpha: _ } = color {
        let is_ascii = match encoding {
            PcdEncoding::Ascii => true,
            PcdEncoding::Binary => false,
        };
        let is_f32 = match f[index].kind {
            PcdValueKind::F32 => true,
            _ => false,
        };
        if is_ascii && is_f32 {
            return Err(PcdLoadError(ascii_packed_message(f[index].name.as_str())));
        }
    }
    Ok(PcdSchema { encoding, declared_points, x, y, z, color })
}

/// The red, green, blue and alpha bytes of a packed colour: red in bits
/// 16..24, green in 8..16, blue in 0..8, and alpha in 24..32 when the
/// field carries it (fully opaque otherwise).
pub open spec fn unpacked(bits: u32, alpha: bool) -> [u8; 4] {
    [
        ((bits / 0x10000) % 0x100) as u8,
        ((bits / 0x100) % 0x100) as u8,
        (bits % 0x100) as u8,
        if alpha {
            (bits / 0x1000000) as u8
        } else {
            255
        },
    ]
}

/// Packing red, green, blue and alpha bytes into one 32-bit value (alpha in
/// the top byte, then red, green, blue) and unpacking gives the same four
/// channels back; without an alpha channel the colour is fully opaque.
pub proof fn law_packed_colour_channels(red: u8, green: u8, blue: u8, a: u8)
    ensures
        ({
            let v = (a as int * 0x1000000 + red as int * 0x10000 + green as int * 0x100 + blue as int) as u32;
            &&& unpacked(v, true)@ == seq![red, green, blue, a]
            &&& unpacked(v, false)@ == seq![red, green, blue, 255u8]
        }),
{
    let v = a as int * 0x1000000 + red as int * 0x10000 + green as int * 0x100 + blue as int;
    assert(0 <= v < 0x1_0000_0000);
    let low = green as int * 0x100 + blue as int;
    lemma_fundamental_div_mod_converse(v, 0x10000, a as int * 0x100 + red as int, low);
    lemma_fundamental_div_mod_converse(a as int * 0x100 + red as int, 0x100, a as int, red as int);
    lemma_fundamental_div_mod_converse(v, 0x100, a as int * 0x10000 + red as int * 0x100 + green as int, blue as int);
    lemma_fundamental_div_mod_converse(a as int * 0x10000 + red as int * 0x100 + green as int, 0x100, a as int * 0x100 + red as int, green as int);
    lemma_fundamental_div_mod_converse(v, 0x100, v / 0x100, blue as int);
    lemma_fundamental_div_mod_converse(v, 0x1000000, a as int, red as int * 0x10000 + low);
    let u = unpacked(v as u32, true);
    assert(u@ =~= seq![red, green, blue, a]);
    assert(unpacked(v as u32, false)@ =~= seq![red, green, blue, 255u8]);
}

/// The error of a packed colour field whose values are not 32-bit scalars.
pub open spec fn packed_type_error(index: nat) -> Seq<char> {
    "packed color field at schema index "@ + decimal(index)
        + " must be scalar F32, U32, or I32"@
}

/// Decodes a packed colour from the bits of its field, which are absent
/// when the field does not hold one 32-bit value.
pub fn packed_color(bits: Option<u32>, alpha: bool, index: usize) -> (r: Result<[u8; 4], PcdLoadError>)
    ensures
        match bits {
            Some(b) => r == Ok::<[u8; 4], PcdLoadError>(unpacked(b, alpha)),
            None => r matches Err(e) && e.0@ == packed_type_error(index as nat),
        },
{
    match bits {
        Some(b) => {
            let red = ((b >> 16) & 0xff) as u8;
            let green = ((b >> 8) & 0xff) as u8;
            let blue = (b & 0xff) as u8;
            let a = if alpha {
                (b >> 24) as u8
            } else {
                255
            };
            assert(((b >> 16) & 0xff) == (b / 0x10000) % 0x100) by (bit_vector);
            assert(((b >> 8) & 0xff) == (b / 0x100) % 0x100) by (bit_vector);
            assert((b & 0xff) == b % 0x100) by (bit_vector);
            assert((b >> 24) == b / 0x1000000) by (bit_vector);
            let out = [red, green, blue, a];
            assert(out@ =~= unpacked(b, alpha)@);
            Ok(out)
        },
        None => {
            let mut s = String::from_str("packed color field at schema index ");
            push_decimal(&mut s, index as u64);
            s.append(" must be scalar F32, U32, or I32");
            Err(PcdLoadError(s))
        },
    }
}

/// The error of a declared point count that does not fit the platform.
pub open spec fn capacity_error(declared: u64) -> Seq<char> {
    "cannot reserve buffers for "@ + decimal(declared as nat)
        + " declared points: count exceeds platform capacity"@
}

/// The number of points to reserve room for: the declared count, when the
/// platform can address it.
pub fn declared_capacity(declared: u64) -> (r: Result<usize, PcdLoadError>)
    ensures
        declared <= usize::MAX ==> r == Ok::<usize, PcdLoadError>(declared as usize),
        declared > usize::MAX ==> (r matches Err(e) && e.0@ == capacity_error(declared)),
{
    if declared <= usize::MAX as u64 {
        Ok(declared as usize)
    } else {
        let mut s = String::from_str("cannot reserve buffers for ");
        push_decimal(&mut s, declared);
        s.append(" declared points: count exceeds platform capacity");
        Err(PcdLoadError(s))
    }
}

} // verus!
