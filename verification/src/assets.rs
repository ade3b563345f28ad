//! What a sprite sheet's description says: the named rectangles that cut the
//! sheet into sprites. A description gives every number as text.

use vstd::prelude::*;

verus! {

/// Whether a character is one of the ten digits.
pub open spec fn is_digit(c: char) -> bool {
    '0' <= c <= '9'
}

/// The number a digit stands for.
pub open spec fn digit_value(c: char) -> int {
    c as int - '0' as int
}

/// Whether a text is made of digits alone.
pub open spec fn all_digits(text: Seq<char>) -> bool {
    forall|i: int| 0 <= i < text.len() ==> is_digit(#[trigger] text[i])
}

/// The number that a run of digits spells in base ten.
pub open spec fn decimal_value(digits: Seq<char>) -> int
    decreases digits.len(),
{
    if digits.len() == 0 {
        0
    } else {
        10 * decimal_value(digits.drop_last()) + digit_value(digits.last())
    }
}

/// The digits of a number's text: the text without its sign, if it has one.
pub open spec fn unsigned_part(text: Seq<char>) -> Seq<char> {
    if text.len() > 0 && (text[0] == '-' || text[0] == '+') {
        text.drop_first()
    } else {
        text
    }
}

/// The number that a text spells: an optional `+` or `-` and then one digit
/// or more, and nothing else. Other texts spell no number.
pub open spec fn signed_decimal(text: Seq<char>) -> Option<int> {
    let digits = unsigned_part(text);
    if digits.len() == 0 || !all_digits(digits) {
        None
    } else if text[0] == '-' {
        Some(-decimal_value(digits))
    } else {
        Some(decimal_value(digits))
    }
}

/// The `i32` that a text spells, if it spells a number and the number fits.
pub open spec fn parsed_i32(text: Seq<char>) -> Option<i32> {
    match signed_decimal(text) {
        Some(value) => if i32::MIN <= value <= i32::MAX {
            Some(value as i32)
        } else {
            None
        },
        None => None,
    }
}

/// Whether a text begins with another.
pub open spec fn begins_with(text: Seq<char>, prefix: Seq<char>) -> bool {
    prefix.len() <= text.len() && text.subrange(0, prefix.len() as int) == prefix
}

/// Whether a sprite's name says that it shows a face.
pub open spec fn is_face(name: Seq<char>) -> bool {
    begins_with(name, "face"@)
}

/// The positions of the sprites that show a face, in rising order.
pub open spec fn face_indexes(sub_textures: Seq<SubTexture>) -> Seq<usize>
    decreases sub_textures.len(),
{
    if sub_textures.len() == 0 {
        Seq::empty()
    } else {
        let before = face_indexes(sub_textures.drop_last());
        if is_face(sub_textures.last().name@) {
            before.push((sub_textures.len() - 1) as usize)
        } else {
            before
        }
    }
}

/// The rectangles of a list of sprites, in the order of the sprites.
pub open spec fn rects(sub_textures: Seq<SubTexture>) -> Seq<TextureRect> {
    Seq::new(sub_textures.len(), |i: int| sub_textures[i].spec_rect())
}

/// The positions that `face_indexes` lists are those of the sprites whose
/// name begins with `face`, each once and in rising order.
pub proof fn lemma_face_indexes(sub_textures: Seq<SubTexture>)
    requires
        sub_textures.len() <= usize::MAX,
    ensures
        forall|k: int|
            0 <= k < face_indexes(sub_textures).len() ==> {
                &&& (#[trigger] face_indexes(sub_textures)[k]) < sub_textures.len()
                &&& is_face(sub_textures[face_indexes(sub_textures)[k] as int].name@)
            },
        forall|j: int, k: int|
            0 <= j < k < face_indexes(sub_textures).len() ==> face_indexes(sub_textures)[j]
                < face_indexes(sub_textures)[k],
        forall|i: int|
            0 <= i < sub_textures.len() && is_face((#[trigger] sub_textures[i]).name@)
                ==> face_indexes(sub_textures).contains(i as usize),
        face_indexes(sub_textures).len() <= sub_textures.len(),
    decreases sub_textures.len(),
{
    if sub_textures.len() > 0 {
        let shorter = sub_textures.drop_last();
        let before = face_indexes(shorter);
        let all = face_indexes(sub_textures);
        lemma_face_indexes(shorter);
        assert forall|k: int| 0 <= k < all.len() implies {
            &&& (#[trigger] all[k]) < sub_textures.len()
            &&& is_face(sub_textures[all[k] as int].name@)
        } by {
            if k < before.len() {
                assert(all[k] == before[k]);
                assert(shorter[before[k] as int] == sub_textures[before[k] as int]);
            }
        }
        assert forall|j: int, k: int| 0 <= j < k < all.len() implies all[j] < all[k] by {
            assert(all[j] == before[j]);
            if k < before.len() {
                assert(all[k] == before[k]);
            }
        }
        assert forall|i: int|
            0 <= i < sub_textures.len() && is_face(
                (#[trigger] sub_textures[i]).name@,
            ) implies all.contains(i as usize) by {
            if i < shorter.len() {
                assert(shorter[i] == sub_textures[i]);
                let k = choose|k: int| 0 <= k < before.len() && before[k] == i as usize;
                assert(all[k] == i as usize);
            } else {
                assert(all[all.len() - 1] == i as usize);
            }
        }
    }
}

/// A named rectangle of a sprite sheet, as its description words it.
#[derive(Debug, Clone, PartialEq, Eq)]
pub struct SubTextureRaw {
    pub name: String,
    pub x: String,
    pub y: String,
    pub width: String,
    pub height: String,
}

impl SubTextureRaw {
    /// Whether each of the four measures spells an `i32`.
    pub open spec fn numeric(&self) -> bool {
        &&& parsed_i32(self.x@) is Some
        &&& parsed_i32(self.y@) is Some
        &&& parsed_i32(self.width@) is Some
        &&& parsed_i32(self.height@) is Some
    }
}

/// A named rectangle of a sprite sheet: one sprite.
#[derive(Debug, Clone, PartialEq, Eq)]
pub struct SubTexture {
    pub name: String,
    pub x: i32,
    pub y: i32,
    pub width: i32,
    pub height: i32,
}

/// The corners of a sprite on its sheet.
#[derive(Debug, Clone, Copy, PartialEq, Eq, Structural)]
pub struct TextureRect {
    pub min_x: i64,
    pub min_y: i64,
    pub max_x: i64,
    pub max_y: i64,
}

/// The sprites of a sheet.
#[derive(Debug, Clone, PartialEq, Eq)]
pub struct TextureAtlasObject {
    pub sub_textures: Vec<SubTexture>,
}

/// The description of a sprite sheet.
#[derive(Debug, Clone, PartialEq, Eq)]
pub struct TextureAtlasData {
    pub texture_atlas: TextureAtlasObject,
}

/// Which sprites of the sheet of faces show a face.
#[derive(Debug, Clone, PartialEq, Eq)]
pub struct FacesMetadata {
    pub face_indexes: Vec<usize>,
}

/// Tells whether a text begins with another.
pub fn starts_with(text: &str, prefix: &str) -> (begins: bool)
    ensures
        begins == begins_with(text@, prefix@),
{
    let text_len = text.unicode_len();
    let prefix_len = prefix.unicode_len();
    if prefix_len > text_len {
        return false;
    }
    let mut i: usize = 0;
    while i < prefix_len
        invariant
            i <= prefix_len <= text_len,
            prefix_len == prefix@.len(),
            text_len == text@.len(),
            text@.subrange(0, i as int) == prefix@.subrange(0, i as int),
        decreases prefix_len - i,
    {
        if text.get_char(i) != prefix.get_char(i) {
            assert(text@.subrange(0, prefix_len as int)[i as int] != prefix@[i as int]);
            return false;
        }
        assert(text@.subrange(0, i + 1) =~= text@.subrange(0, i as int).push(text@[i as int]));
        assert(prefix@.subrange(0, i + 1) =~= prefix@.subrange(0, i as int).push(
            prefix@[i as int],
        ));
        i += 1;
    }
    assert(prefix@.subrange(0, prefix_len as int) =~= prefix@);
    true
}

/// Reads a number in base ten: an optional sign and then digits. There is no
/// number where the text holds anything else, holds no digit, or spells a
/// number that an `i32` cannot hold.
pub fn parse_i32(text: &str) -> (parsed: Option<i32>)
    ensures
        parsed == parsed_i32(text@),
{
    let len = text.unicode_len();
    if len == 0 {
        return None;
    }
    let first = text.get_char(0);
    let negative = first == '-';
    let start: usize = if first == '-' || first == '+' {
        1
    } else {
        0
    };
    if start == len {
        assert(unsigned_part(text@).len() == 0);
        return None;
    }
    let ghost digits = unsigned_part(text@);
    assert(digits =~= text@.subrange(start as int, len as int));
    // The number spelled so far, as long as it is no more than 2^31.
    let mut value: i64 = 0;
    let mut too_large = false;
    let mut i: usize = start;
    while i < len
        invariant
            start <= i <= len,
            len == text@.len(),
            digits == unsigned_part(text@),
            digits == text@.subrange(start as int, len as int),
            all_digits(digits.take(i - start)),
            !too_large ==> value == decimal_value(digits.take(i - start)),
            0 <= value <= 0x8000_0000,
            too_large ==> decimal_value(digits.take(i - start)) > 0x8000_0000,
        decreases len - i,
    {
        let c = text.get_char(i);
        assert(c == digits[i - start]);
        if c < '0' || c > '9' {
            assert(!is_digit(digits[i - start]));
            return None;
        }
        let digit = (c as u32 - '0' as u32) as i64;
        proof {
            let longer = digits.take(i - start + 1);
            assert(longer.drop_last() =~= digits.take(i - start));
            assert(longer.last() == c);
            assert(digit == digit_value(c));
            assert(decimal_value(longer) == 10 * decimal_value(digits.take(i - start)) + digit);
            assert forall|k: int| 0 <= k < longer.len() implies is_digit(#[trigger] longer[k]) by {
                if k < i - start {
                    assert(digits.take(i - start)[k] == longer[k]);
                }
            }
        }
        if !too_large {
            value = 10 * value + digit;
            if value > 0x8000_0000 {
                too_large = true;
                value = 0;
            }
        }
        i += 1;
    }
    assert(digits.take(len - start) =~= digits);
    if too_large {
        None
    } else if negative {
        Some((-value) as i32)
    } else if value <= 0x7fff_ffff {
        Some(value as i32)
    } else {
        None
    }
}

impl SubTexture {
    /// The sprite's corners on the sheet: the sprite begins at `x` and `y` and
    /// is `width` wide and `height` high.
    pub open spec fn spec_rect(&self) -> TextureRect {
        TextureRect {
            min_x: self.x as i64,
            min_y: self.y as i64,
            max_x: (self.x + self.width) as i64,
            max_y: (self.y + self.height) as i64,
        }
    }

    /// Reads the measures of a sprite, if each of them spells an `i32`.
    pub fn parse(raw: SubTextureRaw) -> (read: Option<SubTexture>)
        ensures
            read is Some <==> raw.numeric(),
            read matches Some(sub_texture) ==> {
                &&& sub_texture.name == raw.name
                &&& Some(sub_texture.x) == parsed_i32(raw.x@)
                &&& Some(sub_texture.y) == parsed_i32(raw.y@)
                &&& Some(sub_texture.width) == parsed_i32(raw.width@)
                &&& Some(sub_texture.height) == parsed_i32(raw.height@)
            },
    {
        let x = parse_i32(raw.x.as_str());
        let y = parse_i32(raw.y.as_str());
        let width = parse_i32(raw.width.as_str());
        let height = parse_i32(raw.height.as_str());
        match (x, y, width, height) {
            (Some(x), Some(y), Some(width), Some(height)) => Some(
                SubTexture { name: raw.name, x, y, width, height },
            ),
            _ => None,
        }
    }

    /// Reads the measures of a sprite whose description is in order.
    pub fn from_raw(raw: SubTextureRaw) -> (sub_texture: SubTexture)
        requires
            raw.numeric(),
        ensures
            sub_texture.name == raw.name,
            Some(sub_texture.x) == parsed_i32(raw.x@),
            Some(sub_texture.y) == parsed_i32(raw.y@),
            Some(sub_texture.width) == parsed_i32(raw.width@),
            Some(sub_texture.height) == parsed_i32(raw.height@),
    {
        SubTexture::parse(raw).unwrap()
    }

    /// The sprite's corners on the sheet.
    pub fn rect(&self) -> (rect: TextureRect)
        ensures
            rect == self.spec_rect(),
    {
        TextureRect {
            min_x: self.x as i64,
            min_y: self.y as i64,
            max_x: self.x as i64 + self.width as i64,
            max_y: self.y as i64 + self.height as i64,
        }
    }
}

/// The rectangles that a sheet's description adds to the sheet, sprite by
/// sprite. A sheet without a description gets none.
pub fn fill_textures(texture_atlas_data: Option<&TextureAtlasData>) -> (textures: Vec<TextureRect>)
    ensures
        textures@ == match texture_atlas_data {
            Some(texture_data) => rects(texture_data.texture_atlas.sub_textures@),
            None => Seq::empty(),
        },
{
    let mut textures: Vec<TextureRect> = Vec::new();
    if let Some(texture_data) = texture_atlas_data {
        let sub_textures = &texture_data.texture_atlas.sub_textures;
        let mut i: usize = 0;
        while i < sub_textures.len()
            invariant
                i <= sub_textures@.len(),
                textures@.len() == i,
                forall|k: int| 0 <= k < i ==> textures@[k] == sub_textures@[k].spec_rect(),
            decreases sub_textures@.len() - i,
        {
            textures.push(sub_textures[i].rect());
            i += 1;
        }
        assert(textures@ =~= rects(sub_textures@));
    }
    textures
}

impl FacesMetadata {
    /// Finds the faces on a sheet: the sprites whose name begins with `face`.
    /// A sheet without a description has none.
    pub fn new(texture_atlas_data: Option<&TextureAtlasData>) -> (faces: FacesMetadata)
        ensures
            faces.face_indexes@ == match texture_atlas_data {
                Some(texture_data) => face_indexes(texture_data.texture_atlas.sub_textures@),
                None => Seq::empty(),
            },
    {
        let mut indexes: Vec<usize> = Vec::new();
        if let Some(texture_data) = texture_atlas_data {
            let sub_textures = &texture_data.texture_atlas.sub_textures;
            let mut i: usize = 0;
            while i < sub_textures.len()
                invariant
                    i <= sub_textures@.len(),
                    indexes@ == face_indexes(sub_textures@.take(i as int)),
                decreases sub_textures@.len() - i,
            {
                assert(sub_textures@.take(i + 1).drop_last() =~= sub_textures@.take(i as int));
                if starts_with(sub_textures[i].name.as_str(), "face") {
                    indexes.push(i);
                }
                i += 1;
            }
            assert(sub_textures@.take(i as int) =~= sub_textures@);
        }
        FacesMetadata { face_indexes: indexes }
    }
}

} // verus!
