//! A resource provider that answers from tables: the extent of each run of
//! text and of each texture that was made known to it. A run of text that
//! it was not told of is taken to fill one cell of a fixed size for each of
//! its characters.

use vstd::prelude::*;
use crate::style::Resources;

verus! {

/// The size of one texture.
#[derive(Clone, Copy, Debug, PartialEq, Eq, Structural)]
pub struct TextureInfo {
    pub key: i32,
    pub width: u16,
    pub height: u16,
}

/// The extent of one run of text in one font at one size.
#[derive(Debug, PartialEq, Eq)]
pub struct TextInfo {
    pub font: String,
    pub size: u8,
    pub text: String,
    pub width: u16,
    pub height: u16,
}

pub struct FixedResources {
    /// The width of the cell of one glyph.
    pub glyph_width: u16,
    /// The height of the cell of one glyph.
    pub glyph_height: u16,
    pub texts: Vec<TextInfo>,
    pub textures: Vec<TextureInfo>,
}

/// The extent in the first entry of the table for `text` in `font` at
/// `size`.
pub open spec fn lookup_text(texts: Seq<TextInfo>, font: Seq<char>, size: u8, text: Seq<char>) -> Option<
    (u16, u16),
>
    decreases texts.len(),
{
    if texts.len() == 0 {
        None
    } else if texts[0].font@ == font && texts[0].size == size && texts[0].text@ == text {
        Some((texts[0].width, texts[0].height))
    } else {
        lookup_text(texts.skip(1), font, size, text)
    }
}

/// The width of `count` cells of width `glyph_width`, as far as it fits.
pub open spec fn run_width(count: nat, glyph_width: u16) -> u16 {
    if count * glyph_width > u16::MAX {
        u16::MAX
    } else {
        (count * glyph_width) as u16
    }
}

/// The size of the first texture of the table that carries `key`.
pub open spec fn lookup(textures: Seq<TextureInfo>, key: i32) -> Option<(u16, u16)>
    decreases textures.len(),
{
    if textures.len() == 0 {
        None
    } else if textures[0].key == key {
        Some((textures[0].width, textures[0].height))
    } else {
        lookup(textures.skip(1), key)
    }
}

impl FixedResources {
    pub fn new(glyph_width: u16, glyph_height: u16) -> (resources: Self)
        ensures
            resources.glyph_width == glyph_width,
            resources.glyph_height == glyph_height,
            resources.texts@ == Seq::<TextInfo>::empty(),
            resources.textures@ == Seq::<TextureInfo>::empty(),
    {
        FixedResources { glyph_width, glyph_height, texts: Vec::new(), textures: Vec::new() }
    }

    /// Makes the extent of `text` in `font` at `size` known. An earlier
    /// entry for the same run stays in force.
    pub fn add_text(&mut self, font: String, size: u8, text: String, width: u16, height: u16)
        ensures
            *final(self) == (FixedResources { texts: final(self).texts, ..*old(self) }),
            final(self).texts@ == old(self).texts@.push(
                TextInfo { font, size, text, width, height },
            ),
    {
        self.texts.push(TextInfo { font, size, text, width, height });
    }

    /// Makes the texture `key` known with the given size. An earlier entry
    /// for the same key stays in force.
    pub fn add_texture(&mut self, key: i32, width: u16, height: u16)
        ensures
            *final(self) == (FixedResources { textures: final(self).textures, ..*old(self) }),
            final(self).textures@ == old(self).textures@.push(TextureInfo { key, width, height }),
    {
        self.textures.push(TextureInfo { key, width, height });
    }
}

impl Resources for FixedResources {
    open spec fn font_dimensions(&self, font: Seq<char>, size: u8, text: Seq<char>) -> (u16, u16) {
        match lookup_text(self.texts@, font, size, text) {
            Some(dimensions) => dimensions,
            None => (run_width(text.len(), self.glyph_width), self.glyph_height),
        }
    }

    open spec fn texture_size(&self, key: i32) -> Option<(u16, u16)> {
        lookup(self.textures@, key)
    }

    fn get_font_dimensions(&self, font: &str, size: u8, text: &str) -> (dimensions: (u16, u16)) {
        let wanted_font = font.to_owned();
        let wanted_text = text.to_owned();
        let mut i: usize = 0;
        assert(self.texts@.skip(0) =~= self.texts@);
        while i < self.texts.len()
            invariant
                i <= self.texts@.len(),
                wanted_font@ == font@,
                wanted_text@ == text@,
                lookup_text(self.texts@, font@, size, text@) == lookup_text(
                    self.texts@.skip(i as int),
                    font@,
                    size,
                    text@,
                ),
            decreases self.texts.len() - i,
        {
            let entry = &self.texts[i];
            assert(self.texts@.skip(i as int)[0] == *entry);
            if entry.size == size && entry.font == wanted_font && entry.text == wanted_text {
                return (entry.width, entry.height);
            }
            assert(self.texts@.skip(i as int).skip(1) =~= self.texts@.skip(i as int + 1));
            i += 1;
        }
        let count = text.unicode_len();
        let cell = self.glyph_width;
        if cell == 0 || count == 0 {
            assert(count * cell == 0) by (nonlinear_arith)
                requires
                    cell == 0 || count == 0,
            ;
            return (0, self.glyph_height);
        }
        let limit: usize = (u16::MAX / cell) as usize;
        if count > limit {
            assert(count * cell > u16::MAX) by (nonlinear_arith)
                requires
                    count >= (u16::MAX as int / cell as int) + 1,
                    cell > 0,
            ;
            (u16::MAX, self.glyph_height)
        } else {
            assert(count * cell <= u16::MAX) by (nonlinear_arith)
                requires
                    0 <= count <= u16::MAX as int / cell as int,
                    cell > 0,
            ;
            ((count as u16) * cell, self.glyph_height)
        }
    }

    fn get_texture_size(&self, key: i32) -> (size: Option<(u16, u16)>) {
        let mut i: usize = 0;
        assert(self.textures@.skip(0) =~= self.textures@);
        while i < self.textures.len()
            invariant
                i <= self.textures@.len(),
                lookup(self.textures@, key) == lookup(self.textures@.skip(i as int), key),
            decreases self.textures.len() - i,
        {
            let entry = self.textures[i];
            assert(self.textures@.skip(i as int)[0] == entry);
            if entry.key == key {
                return Some((entry.width, entry.height));
            }
            assert(self.textures@.skip(i as int).skip(1) =~= self.textures@.skip(i as int + 1));
            i += 1;
        }
        None
    }
}

} // verus!
