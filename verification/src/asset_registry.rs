//! The asset registry: read-only reference data resolvable by name, built
//! once at startup and passed by reference into layout and render calls.

use vstd::prelude::*;
use vstd::string::StringSliceAdditionalSpecFns;
use vstd::utf8::{decode_utf8, encode_utf8, encode_utf8_decode_utf8};

use crate::images::DecodedImage;
use crate::text_boxes::TextBox;
use crate::{LogicalPosition, LogicalSize};

verus! {

/// The first value stored under `name`, scanning the entries in order;
/// nothing when no entry carries the name.
pub open spec fn lookup<T>(entries: Seq<(String, T)>, name: Seq<char>) -> Option<T>
    decreases entries.len(),
{
    if entries.len() == 0 {
        None
    } else if entries[0].0@ == name {
        Some(entries[0].1)
    } else {
        lookup(entries.drop_first(), name)
    }
}

/// A value a lookup returns is one of the stored entries.
pub proof fn lemma_lookup_found<T>(entries: Seq<(String, T)>, name: Seq<char>)
    requires
        lookup(entries, name) is Some,
    ensures
        exists|i: int|
            0 <= i < entries.len() && (#[trigger] entries[i]).1 == lookup(
                entries,
                name,
            ).unwrap(),
    decreases entries.len(),
{
    if entries.len() > 0 {
        if entries[0].0@ == name {
            assert(entries[0].1 == lookup(entries, name).unwrap());
        } else {
            lemma_lookup_found(entries.drop_first(), name);
            let j = choose|j: int|
                0 <= j < entries.drop_first().len() && (#[trigger] entries.drop_first()[j]).1
                    == lookup(entries.drop_first(), name).unwrap();
            assert(entries[j + 1].1 == lookup(entries, name).unwrap());
        }
    }
}

/// What the layout engine reads of a named asset: an image contributes its
/// dimensions and is centered by the caller; a text box contributes its
/// own stored position besides its dimensions.
#[derive(Debug, Clone, Copy)]
pub enum AssetLayoutInfo {
    Image { dimensions: LogicalSize<u32> },
    Text { position: LogicalPosition<u32>, dimensions: LogicalSize<u32> },
}

/// Read-only reference data resolvable by name: decoded images and shaped
/// text boxes, built once at startup.
pub struct AssetRegistry {
    pub images: Vec<(String, DecodedImage)>,
    pub text_boxes: Vec<(String, TextBox)>,
}

impl AssetRegistry {
    /// Every stored asset satisfies its own invariant.
    pub open spec fn wf(self) -> bool {
        &&& forall|i: int|
            0 <= i < self.images@.len() ==> (#[trigger] self.images@[i]).1.wf()
        &&& forall|i: int|
            0 <= i < self.text_boxes@.len() ==> (#[trigger] self.text_boxes@[i]).1.wf()
    }

    /// What the layout engine reads of the named asset: images are
    /// consulted first, then text boxes.
    pub open spec fn spec_asset_info(self, name: Seq<char>) -> Option<AssetLayoutInfo> {
        match lookup(self.images@, name) {
            Some(image) => Some(
                AssetLayoutInfo::Image {
                    dimensions: LogicalSize { width: image.width, height: image.height },
                },
            ),
            None => match lookup(self.text_boxes@, name) {
                Some(text_box) => Some(
                    AssetLayoutInfo::Text {
                        position: text_box.position,
                        dimensions: text_box.dimensions,
                    },
                ),
                None => None,
            },
        }
    }

    /// An empty registry.
    pub fn new() -> (result: Self)
        ensures
            result.wf(),
            result.images@.len() == 0,
            result.text_boxes@.len() == 0,
    {
        Self { images: Vec::new(), text_boxes: Vec::new() }
    }

    /// Stores a decoded image under a name.
    pub fn add_image(&mut self, name: &str, image: DecodedImage)
        requires
            old(self).wf(),
            image.wf(),
        ensures
            final(self).wf(),
            final(self).images@.len() == old(self).images@.len() + 1,
            final(self).images@.take(old(self).images@.len() as int) == old(self).images@,
            final(self).images@.last().0@ == name@,
            final(self).images@.last().1 == image,
            final(self).text_boxes@ == old(self).text_boxes@,
    {
        self.images.push((name.to_owned(), image));
        proof {
            assert(self.images@.take(old(self).images@.len() as int) =~= old(self).images@);
        }
    }

    /// Stores a shaped text box under a name.
    pub fn add_text_box(&mut self, name: &str, text_box: TextBox)
        requires
            old(self).wf(),
            text_box.wf(),
        ensures
            final(self).wf(),
            final(self).text_boxes@.len() == old(self).text_boxes@.len() + 1,
            final(self).text_boxes@.take(old(self).text_boxes@.len() as int) == old(
                self,
            ).text_boxes@,
            final(self).text_boxes@.last().0@ == name@,
            final(self).text_boxes@.last().1 == text_box,
            final(self).images@ == old(self).images@,
    {
        self.text_boxes.push((name.to_owned(), text_box));
        proof {
            assert(self.text_boxes@.take(old(self).text_boxes@.len() as int) =~= old(
                self,
            ).text_boxes@);
        }
    }

    /// Returns the image stored under the given name, or nothing when the
    /// name resolves to no image.
    pub fn get_image(&self, name: &str) -> (result: Option<&DecodedImage>)
        ensures
            match result {
                Some(image) => lookup(self.images@, name@) == Some(*image),
                None => lookup(self.images@, name@) is None,
            },
    {
        let count = self.images.len();
        let mut i: usize = 0;
        proof {
            assert(self.images@.skip(0) =~= self.images@);
        }
        while i < count
            invariant
                i <= count,
                count == self.images@.len(),
                lookup(self.images@.skip(i as int), name@) == lookup(self.images@, name@),
            decreases count - i,
        {
            proof {
                assert(self.images@.skip(i as int)[0] == self.images@[i as int]);
                assert(self.images@.skip(i as int).drop_first() =~= self.images@.skip(
                    i as int + 1,
                ));
            }
            let entry = &self.images[i];
            if str_equal(entry.0.as_str(), name) {
                return Some(&entry.1);
            }
            i = i + 1;
        }
        proof {
            assert(self.images@.skip(count as int) =~= Seq::<(String, DecodedImage)>::empty());
        }
        None
    }

    /// Returns the text box stored under the given name, or nothing when
    /// the name resolves to no text box.
    pub fn get_text_box(&self, name: &str) -> (result: Option<&TextBox>)
        ensures
            match result {
                Some(text_box) => lookup(self.text_boxes@, name@) == Some(*text_box),
                None => lookup(self.text_boxes@, name@) is None,
            },
    {
        let count = self.text_boxes.len();
        let mut i: usize = 0;
        proof {
            assert(self.text_boxes@.skip(0) =~= self.text_boxes@);
        }
        while i < count
            invariant
                i <= count,
                count == self.text_boxes@.len(),
                lookup(self.text_boxes@.skip(i as int), name@) == lookup(
                    self.text_boxes@,
                    name@,
                ),
            decreases count - i,
        {
            proof {
                assert(self.text_boxes@.skip(i as int)[0] == self.text_boxes@[i as int]);
                assert(self.text_boxes@.skip(i as int).drop_first() =~= self.text_boxes@.skip(
                    i as int + 1,
                ));
            }
            let entry = &self.text_boxes[i];
            if str_equal(entry.0.as_str(), name) {
                return Some(&entry.1);
            }
            i = i + 1;
        }
        proof {
            assert(self.text_boxes@.skip(count as int) =~= Seq::<(String, TextBox)>::empty());
        }
        None
    }

    /// What the layout engine reads of the named asset, resolved at run
    /// time: images first, then text boxes.
    pub fn asset_info(&self, name: &str) -> (result: Option<AssetLayoutInfo>)
        ensures
            result == self.spec_asset_info(name@),
    {
        if let Some(image) = self.get_image(name) {
            return Some(
                AssetLayoutInfo::Image {
                    dimensions: LogicalSize { width: image.width, height: image.height },
                },
            );
        }
        if let Some(text_box) = self.get_text_box(name) {
            return Some(
                AssetLayoutInfo::Text {
                    position: text_box.position,
                    dimensions: text_box.dimensions,
                },
            );
        }
        None
    }
}

/// Compares two string slices character for character.
pub fn str_equal(a: &str, b: &str) -> (result: bool)
    ensures
        result == (a@ == b@),
{
    let a_bytes = a.as_bytes();
    let b_bytes = b.as_bytes();
    if a_bytes.len() != b_bytes.len() {
        proof {
            assert(a@ != b@) by {
                if a@ == b@ {
                    assert(a.spec_bytes() == b.spec_bytes());
                }
            }
        }
        return false;
    }
    let length = a_bytes.len();
    let mut i: usize = 0;
    while i < length
        invariant
            i <= length,
            length == a_bytes@.len() == b_bytes@.len(),
            a_bytes@ == a.spec_bytes(),
            b_bytes@ == b.spec_bytes(),
            forall|j: int| 0 <= j < i ==> a_bytes@[j] == b_bytes@[j],
        decreases length - i,
    {
        if a_bytes[i] != b_bytes[i] {
            proof {
                assert(a.spec_bytes() != b.spec_bytes());
                assert(a@ != b@) by {
                    if a@ == b@ {
                        assert(a.spec_bytes() == b.spec_bytes());
                    }
                }
            }
            return false;
        }
        i = i + 1;
    }
    proof {
        assert(a.spec_bytes() =~= b.spec_bytes());
        assert(encode_utf8(a@) == encode_utf8(b@));
        encode_utf8_decode_utf8(a@);
        encode_utf8_decode_utf8(b@);
        assert(a@ == decode_utf8(encode_utf8(a@)));
        assert(a@ == b@);
    }
    true
}

} // verus!
