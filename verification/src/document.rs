//! Documents and pages: a document collects finished pages and the fonts
//! they use and, when it is finished itself, fixes what the writer is to
//! serialise for its version.

use crate::cache::{ResourceCache, ResourceKey};
use crate::content::{ContentStream, Operator, StyledGlyph, Surface};
use crate::version::{header_bytes_of, ColorModel, ICCProfile, PdfVersion};
use vstd::prelude::*;

verus! {

/// A page that is being drawn.
pub struct Page {
    pub width: u32,
    pub height: u32,
    pub surface: Surface,
}

/// A page whose content is frozen.
pub struct FinishedPage {
    pub width: u32,
    pub height: u32,
    pub content: ContentStream,
}

/// What the writer serialises for a finished document.
pub struct FinishedDocument<T> {
    pub version: PdfVersion,
    /// The bytes with which the output begins.
    pub header: Vec<u8>,
    pub pages: Vec<FinishedPage>,
    /// The fonts, each once, at the position of its handle.
    pub fonts: Vec<T>,
    /// The built-in profiles to attach.
    pub rgb_profile: ICCProfile,
    pub grey_profile: ICCProfile,
    /// Whether procedure sets are written into resource dictionaries.
    pub write_proc_sets: bool,
    /// Whether CID sets are written into font descriptors.
    pub write_cid_set: bool,
}

/// A document under construction, with fonts of type `T`. Its version is
/// fixed when it is made.
pub struct Document<T> {
    version: PdfVersion,
    pages: Vec<FinishedPage>,
    fonts: ResourceCache<T>,
}

impl Page {
    /// Freezes the page's content.
    pub fn finish(self) -> (page: FinishedPage)
        ensures
            page.width == self.width,
            page.height == self.height,
            page.content.operators() == self.surface.operators(),
            page.content.glyph_list() == self.surface.glyph_list(),
    {
        FinishedPage { width: self.width, height: self.height, content: self.surface.finish() }
    }
}

impl<T> Document<T> {
    /// The version that the document targets.
    pub closed spec fn target(&self) -> PdfVersion {
        self.version
    }

    /// The pages finished so far, in order.
    pub closed spec fn finished_pages(&self) -> Seq<FinishedPage> {
        self.pages@
    }

    /// The fonts built so far.
    pub closed spec fn font_cache(&self) -> ResourceCache<T> {
        self.fonts
    }

    /// No font of the document is held twice.
    pub open spec fn wf(&self) -> bool {
        self.font_cache().wf()
    }

    /// A document of the given version without pages or fonts.
    pub fn new(version: PdfVersion) -> (doc: Self)
        ensures
            doc.wf(),
            doc.target() == version,
            doc.finished_pages() == Seq::<FinishedPage>::empty(),
            doc.font_cache().keys() == Seq::<ResourceKey>::empty(),
            doc.font_cache().resources() == Seq::<T>::empty(),
    {
        Document { version, pages: Vec::new(), fonts: ResourceCache::new() }
    }

    /// The version that the document targets.
    pub fn version(&self) -> (v: PdfVersion)
        ensures
            v == self.target(),
    {
        self.version
    }

    /// The number of pages finished so far.
    pub fn page_count(&self) -> (n: usize)
        ensures
            n == self.finished_pages().len(),
    {
        self.pages.len()
    }

    /// The number of fonts built so far.
    pub fn font_count(&self) -> (n: usize)
        ensures
            n == self.font_cache().keys().len(),
    {
        self.fonts.len()
    }

    /// The handle of the font with the given key: the one built before,
    /// or else the one that `constructor` builds now. Pages and version stay
    /// as they are.
    pub fn font<E, F: FnOnce() -> Result<T, E>>(&mut self, key: ResourceKey, constructor: F) -> (r:
        Result<usize, E>)
        requires
            old(self).wf(),
            old(self).font_cache().handle_of(key) is None ==> call_requires(constructor, ()),
        ensures
            final(self).wf(),
            old(self).font_cache().request_gives(key, constructor, r, final(self).font_cache()),
            final(self).target() == old(self).target(),
            final(self).finished_pages() == old(self).finished_pages(),
    {
        self.fonts.get_or_create(key, constructor)
    }

    /// A new page of the given size with an empty surface.
    pub fn start_page(&self, width: u32, height: u32) -> (page: Page)
        ensures
            page.width == width,
            page.height == height,
            page.surface.operators() == Seq::<Operator>::empty(),
            page.surface.glyph_list() == Seq::<StyledGlyph>::empty(),
            page.surface.active_fill() is None,
    {
        Page { width, height, surface: Surface::new() }
    }

    /// Freezes `page` and appends it to the document.
    pub fn finish_page(&mut self, page: Page)
        ensures
            final(self).target() == old(self).target(),
            final(self).font_cache() == old(self).font_cache(),
            final(self).finished_pages().len() == old(self).finished_pages().len() + 1,
            final(self).finished_pages().drop_last() == old(self).finished_pages(),
            final(self).finished_pages().last().width == page.width,
            final(self).finished_pages().last().height == page.height,
            final(self).finished_pages().last().content.operators() == page.surface.operators(),
            final(self).finished_pages().last().content.glyph_list() == page.surface.glyph_list(),
    {
        let finished = page.finish();
        self.pages.push(finished);
        assert(self.pages@.drop_last() =~= old(self).pages@);
    }

    /// Ends the document: its pages in order, each of its fonts once, the
    /// header of its version, the built-in profiles of its version, and the
    /// legacy constructs only where the version still has them.
    pub fn finish(self) -> (out: FinishedDocument<T>)
        ensures
            out.version == self.target(),
            out.header@ == header_bytes_of(self.target().major(), self.target().minor()),
            out.pages@ == self.finished_pages(),
            out.fonts@ == self.font_cache().resources(),
            out.rgb_profile == (ICCProfile {
                model: ColorModel::Rgb,
                generation: self.target().profile_generation(),
            }),
            out.grey_profile == (ICCProfile {
                model: ColorModel::Grey,
                generation: self.target().profile_generation(),
            }),
            out.write_proc_sets == !self.target().drops_legacy(),
            out.write_cid_set == !self.target().drops_legacy(),
    {
        let version = self.version;
        FinishedDocument {
            version,
            header: version.header_bytes(),
            pages: self.pages,
            fonts: self.fonts.into_resources(),
            rgb_profile: version.rgb_icc(),
            grey_profile: version.grey_icc(),
            write_proc_sets: !version.deprecates_proc_sets(),
            write_cid_set: !version.deprecates_cid_set(),
        }
    }
}

} // verus!
