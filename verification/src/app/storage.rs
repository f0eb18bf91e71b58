//! What the application keeps in flash, and the content that it adopts.

use crate::app::image::{ImageModel, MonoImage};
use crate::app::plate::ContentModel;
use crate::app::{App, Plate, IMAGE_KEEP_MAX};
use crate::config_store::{Flash, FlashEvent, FlashPort, MAX_DATA, MAX_IMAGE};
use crate::trace::Trace;
use vstd::prelude::*;

verus! {

broadcast use crate::trace::extends_transitive;

/// A write of the record for a message.
pub open spec fn content_write<E>(msg: Seq<u8>, outcome: Result<(), E>) -> FlashEvent<E> {
    FlashEvent::Written {
        offset: crate::config_store::REGION_OFFSET,
        bytes: crate::config_store::record(msg, MAX_DATA as int),
        outcome,
    }
}

/// A write of the record for an image.
pub open spec fn image_write<E>(image: ImageModel, outcome: Result<(), E>) -> FlashEvent<E> {
    FlashEvent::Written {
        offset: crate::config_store::IMAGE_OFFSET,
        bytes: crate::config_store::record(image.encoded(), MAX_IMAGE as int),
        outcome,
    }
}

impl Plate {
    /// Has a stored image to be loaded for a redraw?
    pub fn needs_stored_image(&self) -> (yes: bool)
        ensures
            yes == (self.image is None && self.image_in_flash),
    {
        self.image.is_none() && self.image_in_flash
    }

    /// Is there a large image that flash holds too?
    pub open spec fn large_image_stored(&self) -> bool {
        self.image_in_flash && (self.image matches Some(i) && i.bits@.len() > IMAGE_KEEP_MAX)
    }

    /// Drop a large image from memory once it is drawn and persisted.
    pub fn trim_image(&mut self)
        ensures
            *final(self) == if old(self).large_image_stored() {
                Plate { image: None, ..*old(self) }
            } else {
                *old(self)
            },
    {
        let large = match &self.image {
            Some(i) => i.bits.len() > IMAGE_KEEP_MAX,
            None => false,
        };
        if self.image_in_flash && large {
            self.image = None;
        }
    }

    /// The message served is the canonical one of the content.
    pub open spec fn serves(&self, c: ContentModel, before: crate::t2t_emu::model::Tag) -> bool {
        self.emu@ == if crate::t2t_emu::model::ndef_tlv(c.to_ndef()).len()
            <= crate::t2t_emu::USER_BYTES {
            before.with_ndef(c.to_ndef())
        } else {
            before
        }
    }

    /// Serve the canonical message of the content over NFC (as far as it
    /// fits); the message.
    pub fn serve_content(&mut self) -> (msg: Vec<u8>)
        ensures
            msg@ == old(self).content@.to_ndef(),
            *final(self) == (Plate { emu: final(self).emu, ..*old(self) }),
            final(self).serves(old(self).content@, old(self).emu@),
    {
        let msg = self.content.to_ndef();
        self.emu.set_ndef(msg.as_slice());
        msg
    }

    /// The content after what a reader wrote to the emulated tag; an erased
    /// tag keeps it.
    pub open spec fn written_content(&self) -> ContentModel {
        match self.emu@.ndef() {
            Some(msg) => self.content@.with_records(msg, 0),
            None => self.content@,
        }
    }

    /// A reader wrote to the emulated tag: adopt the new content, normalise
    /// what is served (canonical record layout) and persist it.
    pub fn on_tag_written<F: FlashPort>(&mut self, flash: &mut Flash<F>) -> (saved: Result<
        (),
        F::Error,
    >)
        ensures
            final(self).content@ == old(self).written_content(),
            final(self).serves(old(self).written_content(), old(self).emu@),
            *final(self) == (Plate {
                emu: final(self).emu,
                content: final(self).content,
                ..*old(self)
            }),
            final(flash).trace() == old(flash).trace().push(
                content_write(old(self).written_content().to_ndef(), saved),
            ),
    {
        let written = match self.emu.ndef() {
            Some(m) => Some(crate::bytes::owned(m)),
            None => None,
        };
        if let Some(m) = written {
            self.content.apply_ndef(m.as_slice());
        }
        let msg = self.serve_content();
        crate::config_store::save(flash, msg.as_slice())
    }

    /// A small image goes to the image slot too, so the flash copy never
    /// disagrees with what is shown; a larger one is there already.
    pub fn store_small_image<F: FlashPort>(&mut self, flash: &mut Flash<F>)
        ensures
            ({
                let small = old(self).image is Some && old(self).image->Some_0.bits@.len()
                    <= IMAGE_KEEP_MAX;
                &&& !small ==> *final(self) == *old(self) && *final(flash) == *old(flash)
                &&& small ==> exists|outcome: Result<(), F::Error>|
                    {
                        &&& final(flash).trace() == old(flash).trace().push(
                            #[trigger] image_write(old(self).image->Some_0@, outcome),
                        )
                        &&& *final(self) == (Plate {
                            image_in_flash: old(self).image_in_flash || outcome is Ok,
                            ..*old(self)
                        })
                    }
            }),
    {
        let bytes = match &self.image {
            Some(image) => if image.bits.len() <= IMAGE_KEEP_MAX {
                Some(image.encode())
            } else {
                None
            },
            None => None,
        };
        if let Some(b) = bytes {
            let outcome = crate::config_store::save_image(flash, b.as_slice());
            if outcome.is_ok() {
                self.image_in_flash = true;
            }
            assert(flash.trace() == old(flash).trace().push(
                image_write(old(self).image->Some_0@, outcome),
            ));
        }
    }

    /// A complete image arrived over BLE: persist and adopt it. The outcomes
    /// of storing the image and the content.
    pub fn on_ble_image<F: FlashPort>(&mut self, flash: &mut Flash<F>, image: MonoImage) -> (saved: (
        Result<(), F::Error>,
        Result<(), F::Error>,
    ))
        ensures
            *final(self) == (Plate {
                image: Some(image),
                image_in_flash: old(self).image_in_flash || saved.0 is Ok,
                emu: final(self).emu,
                ..*old(self)
            }),
            final(self).serves(old(self).content@, old(self).emu@),
            final(flash).trace() == old(flash).trace().push(image_write(image@, saved.0)).push(
                content_write(old(self).content@.to_ndef(), saved.1),
            ),
    {
        // Free the previous image first: with the BLE stack loaded there is
        // not enough heap for two full-screen images plus staging copies.
        self.image = None;
        let bytes = image.encode();
        let first = crate::config_store::save_image(flash, bytes.as_slice());
        if first.is_ok() {
            self.image_in_flash = true;
        }
        self.image = Some(image);
        let msg = self.serve_content();
        let second = crate::config_store::save(flash, msg.as_slice());
        (first, second)
    }

    /// A plate text arrived over BLE: adopt, serve and persist it.
    pub fn on_ble_content<F: FlashPort>(&mut self, flash: &mut Flash<F>, text: &[u8]) -> (saved:
        Result<(), F::Error>)
        ensures
            ({
                let content = old(self).content@.with_plain(crate::text::decoded(text@));
                &&& final(self).content@ == content
                &&& final(self).serves(content, old(self).emu@)
                &&& *final(self) == (Plate {
                    emu: final(self).emu,
                    content: final(self).content,
                    ..*old(self)
                })
                &&& final(flash).trace() == old(flash).trace().push(
                    content_write(content.to_ndef(), saved),
                )
            }),
    {
        self.content.apply_plain(text);
        let msg = self.serve_content();
        crate::config_store::save(flash, msg.as_slice())
    }

    /// The content after loading a stored message, if there was one.
    pub open spec fn restored_content(c: ContentModel, stored: Option<Seq<u8>>) -> ContentModel {
        match stored {
            Some(msg) => c.with_records(msg, 0),
            None => c,
        }
    }

    /// Restore persisted content and image, if any.
    pub fn restore<F: FlashPort>(&mut self, flash: &mut Flash<F>)
        ensures
            final(flash).trace().extends(old(flash).trace()),
            exists|at: int, stored: Option<Seq<u8>>, bytes: Option<Seq<u8>>|
                {
                    &&& #[trigger] content_loaded(
                        final(flash).trace(),
                        old(flash).trace().len(),
                        at,
                        stored,
                    )
                    &&& #[trigger] image_loaded(
                        final(flash).trace(),
                        at,
                        final(flash).trace().len(),
                        bytes,
                    )
                    &&& final(self).content@ == Plate::restored_content(old(self).content@, stored)
                    &&& match Plate::restored_image(bytes) {
                        Some(image) => crate::app::image::image_view(final(self).image) == Some(
                            image,
                        ) && final(self).image_in_flash,
                        None => final(self).image == old(self).image && final(self).image_in_flash
                            == old(self).image_in_flash,
                    }
                },
            *final(self) == (Plate {
                content: final(self).content,
                image: final(self).image,
                image_in_flash: final(self).image_in_flash,
                ..*old(self)
            }),
    {
        let ghost t0 = flash.trace();
        let stored = crate::config_store::load(flash);
        let ghost t1 = flash.trace();
        let ghost stored_bytes = crate::bytes::bytes_view(stored);
        if let Some(msg) = stored {
            self.content.apply_ndef(msg.as_slice());
        }
        let bytes = crate::config_store::load_image(flash);
        let ghost image_bytes = crate::bytes::bytes_view(bytes);
        let ghost t2 = flash.trace();
        if let Some(b) = bytes {
            let image = MonoImage::decode_owned(b);
            if image.is_some() {
                self.image = image;
                self.image_in_flash = true;
            }
        }
        proof {
            loads_keep(t1, t2, t0.len(), stored_bytes);
            assert(content_loaded(t2, t0.len(), t1.len(), stored_bytes));
            assert(image_loaded(t2, t1.len(), t2.len(), image_bytes));
        }
    }

    /// The image in stored bytes, if there is one.
    pub open spec fn restored_image(bytes: Option<Seq<u8>>) -> Option<ImageModel> {
        match bytes {
            Some(b) => ImageModel::decoded(b),
            None => None,
        }
    }
}

impl App {
    /// After a redraw for new content: the next update may be a partial one.
    pub fn redrawn(&mut self, activity: bool, now: u64)
        ensures
            *final(self) == (App {
                fast_refreshes: 1,
                last_activity: if activity {
                    now
                } else {
                    old(self).last_activity
                },
                ..*old(self)
            }),
    {
        self.fast_refreshes = 1;
        if activity {
            self.last_activity = now;
        }
    }
}

/// The trace holds, from `at` to `end`, a load of the content record.
pub open spec fn content_loaded<E>(
    l: Trace<FlashEvent<E>>,
    at: int,
    end: int,
    data: Option<Seq<u8>>,
) -> bool {
    crate::config_store::loaded(
        l,
        at,
        crate::config_store::REGION_OFFSET,
        MAX_DATA as int,
        crate::config_store::REGION_SIZE as int,
    ) == Some((end, data))
}

/// The trace holds, from `at` to `end`, a load of the image record.
pub open spec fn image_loaded<E>(
    l: Trace<FlashEvent<E>>,
    at: int,
    end: int,
    data: Option<Seq<u8>>,
) -> bool {
    crate::config_store::loaded(
        l,
        at,
        crate::config_store::IMAGE_OFFSET,
        MAX_IMAGE as int,
        crate::config_store::IMAGE_REGION as int,
    ) == Some((end, data))
}

/// A load stays in the trace as it grows.
proof fn loads_keep<E>(
    t1: Trace<FlashEvent<E>>,
    t2: Trace<FlashEvent<E>>,
    at: int,
    data: Option<Seq<u8>>,
)
    requires
        t2.extends(t1),
        0 <= at,
        content_loaded(t1, at, t1.len(), data),
    ensures
        content_loaded(t2, at, t1.len(), data),
{
    reveal(crate::config_store::loaded);
    assert(t1.len() > at);
    assert(t2.at(at) == t1.at(at));
    if t1.len() > at + 1 {
        assert(t2.at(at + 1) == t1.at(at + 1));
    }
}

// ----------------------------------------------------------------------
// what is stored and served
// ----------------------------------------------------------------------

/// Content goes to its record at 0x9000, cut to 2048 bytes; an image, with its
/// size before its rows, to the one at 0xFB0000.
pub proof fn writes_go_to_their_records<E>(msg: Seq<u8>, image: ImageModel, outcome: Result<(), E>)
    ensures
        content_write(msg, outcome) == (FlashEvent::Written {
            offset: 0x9000,
            bytes: crate::config_store::record(msg, 2048),
            outcome,
        }),
        image_write(image, outcome) == (FlashEvent::Written {
            offset: 0xFB_0000,
            bytes: crate::config_store::record(image.encoded(), 48_004),
            outcome,
        }),
{
}

/// A content that fits the tag, with up to five bytes around its message, is
/// served by it; one that does not leaves the tag as it is.
pub proof fn contents_are_served(p: Plate, c: ContentModel, before: crate::t2t_emu::model::Tag)
    requires
        p.serves(c, before),
    ensures
        c.to_ndef().len() + 5 <= 888 ==> p.emu@ == before.with_ndef(c.to_ndef()),
        c.to_ndef().len() + 3 > 888 ==> p.emu@ == before,
        c.to_ndef().len() >= 255 && c.to_ndef().len() + 5 > 888 ==> p.emu@ == before,
{
}

/// What a reader wrote is looked for in the tag and applied to the content; an
/// erased tag changes nothing.
pub proof fn written_content_comes_from_the_tag(p: Plate, msg: Seq<u8>)
    ensures
        p.emu@.ndef() == Some(msg) ==> p.written_content() == p.content@.with_records(msg, 0),
        p.emu@.ndef() is None ==> p.written_content() == p.content@,
{
}

/// Only an image of more than 8192 bytes that flash holds too is dropped from
/// memory.
pub proof fn small_images_stay(p: Plate)
    ensures
        p.large_image_stored() <==> p.image_in_flash && (p.image matches Some(i) && i.bits@.len()
            > 8192),
{
}

/// What was stored is applied to the content when the plate starts; a record
/// that is not there changes nothing, and only whole images are taken.
pub proof fn stored_content_is_restored(c: ContentModel, msg: Seq<u8>, bytes: Seq<u8>)
    ensures
        Plate::restored_content(c, Some(msg)) == c.with_records(msg, 0),
        Plate::restored_content(c, None) == c,
        Plate::restored_image(Some(bytes)) == ImageModel::decoded(bytes),
        Plate::restored_image(None) is None,
{
}

/// Both records are looked for where they are stored.
pub proof fn loads_come_from_their_records<E>(
    l: Trace<FlashEvent<E>>,
    at: int,
    end: int,
    data: Option<Seq<u8>>,
)
    ensures
        content_loaded(l, at, end, data) <==> crate::config_store::loaded(
            l,
            at,
            0x9000,
            2048,
            0x6000,
        ) == Some((end, data)),
        image_loaded(l, at, end, data) <==> crate::config_store::loaded(
            l,
            at,
            0xFB_0000,
            48_004,
            0x5_0000,
        ) == Some((end, data)),
{
}

} // verus!
