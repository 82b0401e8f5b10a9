//! Builders that assemble font queries and font load requests.
//!
//! The builders collect the request into a [`FontInfo`] value; looking the
//! request up against the system's font registry (or loading a font file) is
//! I/O and is performed by the embedding application from the assembled
//! `FontInfo`.

use vstd::prelude::*;
use crate::scalar::Scalar;

verus! {

/// A description of a font: family name, style flags and size.
#[derive(Clone, Debug)]
pub struct FontInfo {
    pub family: String,
    pub italic: bool,
    pub oblique: bool,
    pub monospace: bool,
    /// Font size payload (see [`crate::scalar::Scalar`]).
    pub size: Scalar,
}

impl Default for FontInfo {
    /// An unconstrained description: empty family, no style flags, zero size.
    fn default() -> (info: FontInfo)
        ensures
            info.family@ == Seq::<char>::empty(),
            !info.italic,
            !info.oblique,
            !info.monospace,
            info.size == 0,
    {
        FontInfo {
            family: String::new(),
            italic: false,
            oblique: false,
            monospace: false,
            size: 0,
        }
    }
}

/// A builder for a font query, collecting family and style constraints.
#[must_use]
pub struct FontQueryBuilder {
    info: FontInfo,
}

/// Starts a font query with an unconstrained description.
pub fn create_fontquerybuilder() -> (b: FontQueryBuilder)
    ensures
        b.info().family@ == Seq::<char>::empty(),
        !b.info().italic,
        !b.info().oblique,
        !b.info().monospace,
{
    FontQueryBuilder { info: FontInfo { ..FontInfo::default() } }
}

impl FontQueryBuilder {
    /// The description assembled so far.
    pub closed spec fn info(&self) -> FontInfo {
        self.info
    }

    /// Sets a family for the fonts.
    pub fn family(self, family: &str) -> (r: Self)
        ensures
            r.info().family@ == family@,
            r.info().italic == self.info().italic,
            r.info().oblique == self.info().oblique,
            r.info().monospace == self.info().monospace,
            r.info().size == self.info().size,
    {
        let mut this = self;
        this.info.family = family.to_owned();
        this
    }

    /// Flags the fonts to be italic.
    pub fn italic(self) -> (r: Self)
        ensures
            r.info() == (FontInfo { italic: true, ..self.info() }),
    {
        let mut this = self;
        this.info.italic = true;
        this
    }

    /// Flags the fonts to be oblique.
    pub fn oblique(self) -> (r: Self)
        ensures
            r.info() == (FontInfo { oblique: true, ..self.info() }),
    {
        let mut this = self;
        this.info.oblique = true;
        this
    }

    /// Flags the fonts to be monospace.
    pub fn monospace(self) -> (r: Self)
        ensures
            r.info() == (FontInfo { monospace: true, ..self.info() }),
    {
        let mut this = self;
        this.info.monospace = true;
        this
    }

    /// Hands the assembled query out for the registry lookup.
    pub fn into_info(self) -> (info: FontInfo)
        ensures
            info == self.info(),
    {
        self.info
    }
}

/// A builder for a font load request: either a system font description or a
/// file to load.
#[must_use]
pub struct FontBuilder {
    info: FontInfo,
    file: Option<String>,
}

/// Starts a font load request with an unconstrained description.
pub fn create_fontbuilder() -> (b: FontBuilder)
    ensures
        b.info().family@ == Seq::<char>::empty(),
        !b.info().italic,
        !b.info().oblique,
        !b.info().monospace,
        b.info().size == 0,
        b.requested_file() is None,
{
    FontBuilder { info: FontInfo { ..FontInfo::default() }, file: None }
}

impl FontBuilder {
    /// The description assembled so far.
    pub closed spec fn info(&self) -> FontInfo {
        self.info
    }

    /// The file to load, where one was requested.
    pub closed spec fn requested_file(&self) -> Option<String> {
        self.file
    }

    /// Sets a family for the font. The font will be retrieved from the
    /// operating system. Mutually exclusive with `file`.
    pub fn family(self, family: &str) -> (r: Self)
        ensures
            r.info().family@ == family@,
            r.info().italic == self.info().italic,
            r.info().oblique == self.info().oblique,
            r.info().monospace == self.info().monospace,
            r.info().size == self.info().size,
            r.requested_file() == self.requested_file(),
    {
        let mut this = self;
        this.info.family = family.to_owned();
        this
    }

    /// Sets a file for the font to be loaded from. Mutually exclusive with
    /// `family`.
    pub fn file(self, file: &str) -> (r: Self)
        ensures
            r.requested_file() matches Some(f) && f@ == file@,
            r.info() == self.info(),
    {
        let mut this = self;
        this.file = Some(file.to_owned());
        this
    }

    /// Flags the font to be italic.
    pub fn italic(self) -> (r: Self)
        ensures
            r.info() == (FontInfo { italic: true, ..self.info() }),
            r.requested_file() == self.requested_file(),
    {
        let mut this = self;
        this.info.italic = true;
        this
    }

    /// Flags the font to be oblique.
    pub fn oblique(self) -> (r: Self)
        ensures
            r.info() == (FontInfo { oblique: true, ..self.info() }),
            r.requested_file() == self.requested_file(),
    {
        let mut this = self;
        this.info.oblique = true;
        this
    }

    /// Flags the font to be monospace.
    pub fn monospace(self) -> (r: Self)
        ensures
            r.info() == (FontInfo { monospace: true, ..self.info() }),
            r.requested_file() == self.requested_file(),
    {
        let mut this = self;
        this.info.monospace = true;
        this
    }

    /// Sets the font size payload.
    pub fn size(self, size: Scalar) -> (r: Self)
        ensures
            r.info() == (FontInfo { size, ..self.info() }),
            r.requested_file() == self.requested_file(),
    {
        let mut this = self;
        this.info.size = size;
        this
    }

    /// Hands the assembled request out: the file to load, or the system font
    /// description.
    pub fn into_request(self) -> (r: (Option<String>, FontInfo))
        ensures
            r.0 == self.requested_file(),
            r.1 == self.info(),
    {
        (self.file, self.info)
    }
}

} // verus!
