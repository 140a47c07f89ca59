//! The format versions and what each of them allows.

use pdf_writer::Pdf;
use vstd::prelude::*;
use xmp_writer::XmpWriter;

verus! {

/// The low-level document writer. Opaque here; its buffer is `pdf_bytes`.
#[verifier::external_type_specification]
#[verifier::external_body]
pub struct ExPdf(pdf_writer::Pdf);

/// The metadata writer. Opaque here; its property text is `xmp_body`.
#[verifier::external_type_specification]
#[verifier::external_body]
pub struct ExXmpWriter<'a>(xmp_writer::XmpWriter<'a>);

/// The bytes that a `pdf_writer::Pdf` has buffered so far (what its
/// `as_bytes` shows).
pub uninterp spec fn pdf_bytes(pdf: Pdf) -> Seq<u8>;

/// The property elements that an `xmp_writer::XmpWriter` has buffered so far:
/// the text that `finish` places inside the `rdf:Description` element.
pub uninterp spec fn xmp_body(xmp: XmpWriter) -> Seq<char>;

/// The version of a PDF document.
#[derive(Clone, Copy, Debug, PartialEq, Eq, Structural, PartialOrd, Ord, Hash)]
pub enum PdfVersion {
    /// PDF 1.4.
    Pdf14,
    /// PDF 1.5.
    Pdf15,
    /// PDF 1.6.
    Pdf16,
    /// PDF 1.7.
    Pdf17,
    /// PDF 2.0.
    Pdf20,
}

/// The colour model of a profile, which fixes its number of components.
#[derive(Clone, Copy, Debug, PartialEq, Eq, Structural, Hash)]
pub enum ColorModel {
    /// One component.
    Grey,
    /// Three components.
    Rgb,
}

/// The generation of a built-in colour profile.
#[derive(Clone, Copy, Debug, PartialEq, Eq, Structural, Hash)]
pub enum ProfileGeneration {
    /// An ICC v2 profile.
    Legacy,
    /// An ICC v4 profile.
    Modern,
}

/// One of the built-in colour profiles, identified by model and generation.
#[derive(Clone, Copy, Debug, PartialEq, Eq, Structural, Hash)]
pub struct ICCProfile {
    pub model: ColorModel,
    pub generation: ProfileGeneration,
}

/// The format revision that a colour profile declares in its header.
#[derive(Clone, Copy, Debug, PartialEq, Eq, Structural, Hash)]
pub struct ICCMetadata {
    pub major: u8,
    pub minor: u8,
}

/// The number of bits of one colour component of an image.
#[derive(Clone, Copy, Debug, PartialEq, Eq, Structural, Hash)]
pub enum BitsPerComponent {
    Eight,
    Sixteen,
}

/// What to do with an image whose depth the version does not allow.
#[derive(Clone, Copy, Debug, PartialEq, Eq, Structural, Hash)]
pub enum DepthPolicy {
    /// Refuse the image.
    Reject,
    /// Write the image with 8 bits per component.
    Downsample,
}

/// A request that the document's version does not allow.
#[derive(Clone, Copy, Debug, PartialEq, Eq, Structural, Hash)]
pub enum VersionError {
    /// The version has no images of the requested depth.
    BitDepth,
    /// The version embeds no profile of the given revision.
    Profile,
}

impl ColorModel {
    /// The number of colour components.
    pub open spec fn arity(self) -> nat {
        match self {
            ColorModel::Grey => 1,
            ColorModel::Rgb => 3,
        }
    }

    /// The number of colour components.
    pub fn components(&self) -> (n: u8)
        ensures
            n == self.arity(),
    {
        match self {
            ColorModel::Grey => 1,
            ColorModel::Rgb => 3,
        }
    }
}

/// The colour model that a profile names in bytes 16 to 19 of its header:
/// `RGB ` or `GRAY`.
pub open spec fn header_model(data: Seq<u8>) -> Option<ColorModel> {
    if data[16] == 0x52 && data[17] == 0x47 && data[18] == 0x42 && data[19] == 0x20 {
        Some(ColorModel::Rgb)
    } else if data[16] == 0x47 && data[17] == 0x52 && data[18] == 0x41 && data[19] == 0x59 {
        Some(ColorModel::Grey)
    } else {
        None
    }
}

/// What the header of a profile says: the major revision in byte 8, the
/// minor revision in the high half of byte 9, and the colour model. A
/// profile of fewer than 128 bytes has no header.
pub open spec fn header_of(data: Seq<u8>) -> Option<(ICCMetadata, ColorModel)> {
    if data.len() < 128 {
        None
    } else {
        match header_model(data) {
            Some(model) => Some(
                (ICCMetadata { major: data[8], minor: (data[9] / 16) as u8 }, model),
            ),
            None => None,
        }
    }
}

/// Reads the revision and the colour model from the header of a profile.
pub fn read_icc_header(data: &[u8]) -> (r: Option<(ICCMetadata, ColorModel)>)
    ensures
        r == header_of(data@),
{
    if data.len() < 128 {
        return None;
    }
    let model = if data[16] == 0x52 && data[17] == 0x47 && data[18] == 0x42 && data[19] == 0x20 {
        ColorModel::Rgb
    } else if data[16] == 0x47 && data[17] == 0x52 && data[18] == 0x41 && data[19] == 0x59 {
        ColorModel::Grey
    } else {
        return None;
    };
    Some((ICCMetadata { major: data[8], minor: data[9] / 16 }, model))
}

/// The ASCII digit for `d`.
pub open spec fn ascii_digit(d: u8) -> u8 {
    (48 + d) as u8
}

/// The sixteen bytes with which a document of version `major.minor` begins:
/// `%PDF-`, the two digits around a dot, a line feed, and the binary marker.
pub open spec fn header_bytes_of(major: u8, minor: u8) -> Seq<u8> {
    seq![
        0x25u8, 0x50u8, 0x44u8, 0x46u8, 0x2du8, ascii_digit(major), 0x2eu8, ascii_digit(minor),
        0x0au8, 0x25u8, 0x80u8, 0x80u8, 0x80u8, 0x80u8, 0x0au8, 0x0au8,
    ]
}

/// The buffer after the two version digits of the header were set: a number
/// of ten or more leaves its digit as it was.
pub open spec fn with_version_digits(bytes: Seq<u8>, major: u8, minor: u8) -> Seq<u8> {
    let first = if major < 10 {
        bytes.update(5, ascii_digit(major))
    } else {
        bytes
    };
    if minor < 10 {
        first.update(7, ascii_digit(minor))
    } else {
        first
    }
}

/// Whether XML text needs no escaping: none of `<`, `>`, `&`, `'`, `"` occurs.
pub open spec fn is_plain_text(s: Seq<char>) -> bool {
    forall|i: int|
        0 <= i < s.len() ==> #[trigger] s[i] != '<' && s[i] != '>' && s[i] != '&' && s[i] != '\''
            && s[i] != '"'
}

/// The element that records the version `text` in a metadata packet.
pub open spec fn version_element(text: Seq<char>) -> Seq<char> {
    "<pdf:PDFVersion>"@ + text + "</pdf:PDFVersion>"@
}

/// `pdf_writer::Pdf::new`: a fresh writer holds the sixteen header bytes of
/// version 1.7 and nothing else.
#[verifier::external_body]
fn pdf_new() -> (pdf: Pdf)
    ensures
        pdf_bytes(pdf) == header_bytes_of(1, 7),
{
    Pdf::new()
}

/// `pdf_writer::Pdf::set_version`: overwrites the bytes at offsets 5 and 7 of
/// the buffer with the digits of `major` and `minor`, each only where the
/// number is below ten. It indexes the buffer, so the header must be there.
#[verifier::external_body]
fn pdf_set_version(pdf: &mut Pdf, major: u8, minor: u8)
    requires
        pdf_bytes(*old(pdf)).len() >= 8,
    ensures
        pdf_bytes(*final(pdf)) == with_version_digits(pdf_bytes(*old(pdf)), major, minor),
{
    pdf.set_version(major, minor);
}

/// `pdf_writer::Chunk::as_bytes`, reached through `Pdf`'s deref: a copy of
/// the bytes buffered so far.
#[verifier::external_body]
fn pdf_to_vec(pdf: &Pdf) -> (bytes: Vec<u8>)
    ensures
        bytes@ == pdf_bytes(*pdf),
{
    pdf.as_bytes().to_vec()
}

/// `xmp_writer::XmpWriter::pdf_version`: appends the `pdf:PDFVersion` element
/// with `version` as its text to the buffered properties. Text that needs
/// escaping is left out, so the text stands as it is. That the writer also
/// records the `pdf` namespace for the packet's head is not stated.
#[verifier::external_body]
fn xmp_pdf_version(xmp: &mut XmpWriter, version: &str)
    requires
        is_plain_text(version@),
    ensures
        xmp_body(*final(xmp)) == xmp_body(*old(xmp)) + version_element(version@),
{
    xmp.pdf_version(version);
}

impl PdfVersion {
    /// The position of the version in the order of releases, from 0.
    pub open spec fn rank(self) -> nat {
        match self {
            PdfVersion::Pdf14 => 0,
            PdfVersion::Pdf15 => 1,
            PdfVersion::Pdf16 => 2,
            PdfVersion::Pdf17 => 3,
            PdfVersion::Pdf20 => 4,
        }
    }

    /// The major number of the version.
    pub open spec fn major(self) -> u8 {
        match self {
            PdfVersion::Pdf20 => 2,
            _ => 1,
        }
    }

    /// The minor number of the version.
    pub open spec fn minor(self) -> u8 {
        match self {
            PdfVersion::Pdf14 => 4,
            PdfVersion::Pdf15 => 5,
            PdfVersion::Pdf16 => 6,
            PdfVersion::Pdf17 => 7,
            PdfVersion::Pdf20 => 0,
        }
    }

    /// The version as `major.minor`.
    pub open spec fn number_text(self) -> Seq<char> {
        seq![(48 + self.major()) as char, '.', (48 + self.minor()) as char]
    }

    /// The version's display name: `PDF`, a space and `number_text`.
    pub open spec fn name_text(self) -> Seq<char> {
        seq!['P', 'D', 'F', ' '] + self.number_text()
    }

    /// The generation of the built-in profiles that the version embeds:
    /// modern from 1.7 on.
    pub open spec fn profile_generation(self) -> ProfileGeneration {
        if self.rank() >= PdfVersion::Pdf17.rank() {
            ProfileGeneration::Modern
        } else {
            ProfileGeneration::Legacy
        }
    }

    /// The highest major revision of a profile that the version embeds.
    pub open spec fn max_icc_major(self) -> u8 {
        match self {
            PdfVersion::Pdf14 => 2,
            _ => 4,
        }
    }

    /// The highest minor revision that the version embeds beside any major
    /// revision it takes: 1 up to 1.6, 2 from 1.7 on.
    pub open spec fn max_icc_minor(self) -> u8 {
        if self.rank() >= PdfVersion::Pdf17.rank() {
            2
        } else {
            1
        }
    }

    /// Whether a profile of revision `metadata` may be embedded. Every
    /// version takes the revisions up to 2.2; beyond them a version takes a
    /// revision whose two numbers are within its limits. Both limits grow
    /// with the version, so a later version takes whatever an earlier takes.
    pub open spec fn accepts_icc(self, metadata: ICCMetadata) -> bool {
        ||| metadata.major <= 2 && metadata.minor <= 2
        ||| metadata.major <= self.max_icc_major() && metadata.minor <= self.max_icc_minor()
    }

    /// Whether images of the given depth are allowed: 8 bits always, 16 bits
    /// from 1.5 on.
    pub open spec fn accepts_bit_depth(self, depth: BitsPerComponent) -> bool {
        match depth {
            BitsPerComponent::Eight => true,
            BitsPerComponent::Sixteen => self.rank() >= PdfVersion::Pdf15.rank(),
        }
    }

    /// Whether the version no longer writes the two legacy constructs
    /// (procedure sets, CID sets): from 2.0 on.
    pub open spec fn drops_legacy(self) -> bool {
        self.rank() >= PdfVersion::Pdf20.rank()
    }

    /// The position of the version in the order of releases, from 0.
    pub fn ordinal(&self) -> (n: u8)
        ensures
            n == self.rank(),
    {
        match self {
            PdfVersion::Pdf14 => 0,
            PdfVersion::Pdf15 => 1,
            PdfVersion::Pdf16 => 2,
            PdfVersion::Pdf17 => 3,
            PdfVersion::Pdf20 => 4,
        }
    }

    /// Whether `self` is `other` or a later version.
    pub fn at_least(&self, other: PdfVersion) -> (b: bool)
        ensures
            b == (self.rank() >= other.rank()),
    {
        self.ordinal() >= other.ordinal()
    }

    /// The major and minor number of the version.
    pub fn numbers(&self) -> (n: (u8, u8))
        ensures
            n == (self.major(), self.minor()),
    {
        match self {
            PdfVersion::Pdf14 => (1, 4),
            PdfVersion::Pdf15 => (1, 5),
            PdfVersion::Pdf16 => (1, 6),
            PdfVersion::Pdf17 => (1, 7),
            PdfVersion::Pdf20 => (2, 0),
        }
    }

    /// The version as `major.minor`, as metadata records it.
    pub fn number_str(&self) -> (s: &'static str)
        ensures
            s@ == self.number_text(),
            is_plain_text(s@),
    {
        proof {
            reveal_strlit("1.4");
            reveal_strlit("1.5");
            reveal_strlit("1.6");
            reveal_strlit("1.7");
            reveal_strlit("2.0");
        }
        let s = match self {
            PdfVersion::Pdf14 => "1.4",
            PdfVersion::Pdf15 => "1.5",
            PdfVersion::Pdf16 => "1.6",
            PdfVersion::Pdf17 => "1.7",
            PdfVersion::Pdf20 => "2.0",
        };
        assert(s@ =~= self.number_text());
        s
    }

    /// Writes the version into the metadata: appends the `pdf:PDFVersion`
    /// element with the version's number as its text.
    pub fn write_xmp(&self, xmp: &mut XmpWriter)
        ensures
            xmp_body(*final(xmp)) == xmp_body(*old(xmp)) + version_element(self.number_text()),
    {
        let text = self.number_str();
        xmp_pdf_version(xmp, text);
    }

    /// Get a string representation of the PDF version.
    pub fn as_str(&self) -> (s: &str)
        ensures
            s@ == self.name_text(),
    {
        proof {
            reveal_strlit("PDF 1.4");
            reveal_strlit("PDF 1.5");
            reveal_strlit("PDF 1.6");
            reveal_strlit("PDF 1.7");
            reveal_strlit("PDF 2.0");
        }
        let s = match self {
            PdfVersion::Pdf14 => "PDF 1.4",
            PdfVersion::Pdf15 => "PDF 1.5",
            PdfVersion::Pdf16 => "PDF 1.6",
            PdfVersion::Pdf17 => "PDF 1.7",
            PdfVersion::Pdf20 => "PDF 2.0",
        };
        assert(s@ =~= self.name_text());
        s
    }

    /// The built-in RGB profile that the version embeds.
    pub fn rgb_icc(&self) -> (p: ICCProfile)
        ensures
            p == (ICCProfile { model: ColorModel::Rgb, generation: self.profile_generation() }),
    {
        let generation = match self {
            PdfVersion::Pdf14 => ProfileGeneration::Legacy,
            PdfVersion::Pdf15 => ProfileGeneration::Legacy,
            PdfVersion::Pdf16 => ProfileGeneration::Legacy,
            PdfVersion::Pdf17 => ProfileGeneration::Modern,
            PdfVersion::Pdf20 => ProfileGeneration::Modern,
        };
        ICCProfile { model: ColorModel::Rgb, generation }
    }

    /// The built-in grey profile that the version embeds.
    pub fn grey_icc(&self) -> (p: ICCProfile)
        ensures
            p == (ICCProfile { model: ColorModel::Grey, generation: self.profile_generation() }),
    {
        let generation = match self {
            PdfVersion::Pdf14 => ProfileGeneration::Legacy,
            PdfVersion::Pdf15 => ProfileGeneration::Legacy,
            PdfVersion::Pdf16 => ProfileGeneration::Legacy,
            PdfVersion::Pdf17 => ProfileGeneration::Modern,
            PdfVersion::Pdf20 => ProfileGeneration::Modern,
        };
        ICCProfile { model: ColorModel::Grey, generation }
    }

    /// The built-in profile of the given colour model that the version embeds.
    pub fn profile_for(&self, model: ColorModel) -> (p: ICCProfile)
        ensures
            p == (ICCProfile { model, generation: self.profile_generation() }),
    {
        match model {
            ColorModel::Grey => self.grey_icc(),
            ColorModel::Rgb => self.rgb_icc(),
        }
    }

    /// Whether a profile with the given revision may be embedded in a
    /// document of this version.
    pub fn supports_icc(&self, metadata: &ICCMetadata) -> (b: bool)
        ensures
            b == self.accepts_icc(*metadata),
    {
        let legacy = metadata.major <= 2 && metadata.minor <= 2;
        match self {
            PdfVersion::Pdf14 => legacy,
            PdfVersion::Pdf15 => legacy || (metadata.major <= 4 && metadata.minor <= 1),
            PdfVersion::Pdf16 => legacy || (metadata.major <= 4 && metadata.minor <= 1),
            PdfVersion::Pdf17 => metadata.major <= 4 && metadata.minor <= 2,
            PdfVersion::Pdf20 => metadata.major <= 4 && metadata.minor <= 2,
        }
    }

    /// Whether images of the given depth may be written at this version.
    pub fn supports_bit_depth(&self, bits_per_component: BitsPerComponent) -> (b: bool)
        ensures
            b == self.accepts_bit_depth(bits_per_component),
    {
        match bits_per_component {
            BitsPerComponent::Eight => true,
            BitsPerComponent::Sixteen => self.at_least(PdfVersion::Pdf15),
        }
    }

    /// The depth at which an image of the requested depth is written: the
    /// requested one where the version allows it; otherwise 8 bits under
    /// `Downsample`, and an error under `Reject`.
    pub fn resolve_bit_depth(&self, requested: BitsPerComponent, policy: DepthPolicy) -> (r: Result<
        BitsPerComponent,
        VersionError,
    >)
        ensures
            r == (if self.accepts_bit_depth(requested) {
                Ok::<BitsPerComponent, VersionError>(requested)
            } else if policy == DepthPolicy::Downsample {
                Ok::<BitsPerComponent, VersionError>(BitsPerComponent::Eight)
            } else {
                Err::<BitsPerComponent, VersionError>(VersionError::BitDepth)
            }),
    {
        if self.supports_bit_depth(requested) {
            Ok(requested)
        } else {
            match policy {
                DepthPolicy::Downsample => Ok(BitsPerComponent::Eight),
                DepthPolicy::Reject => Err(VersionError::BitDepth),
            }
        }
    }

    /// Admits a profile of the given revision for embedding, or says that
    /// the version does not take it.
    pub fn check_icc(&self, metadata: &ICCMetadata) -> (r: Result<(), VersionError>)
        ensures
            r == (if self.accepts_icc(*metadata) {
                Ok::<(), VersionError>(())
            } else {
                Err::<(), VersionError>(VersionError::Profile)
            }),
    {
        if self.supports_icc(metadata) {
            Ok(())
        } else {
            Err(VersionError::Profile)
        }
    }

    /// Sets the version digits in the header of `pdf`.
    pub fn set_version(&self, pdf: &mut Pdf)
        requires
            pdf_bytes(*old(pdf)).len() >= 8,
        ensures
            pdf_bytes(*final(pdf)) == pdf_bytes(*old(pdf)).update(
                5,
                ascii_digit(self.major()),
            ).update(7, ascii_digit(self.minor())),
    {
        let (major, minor) = self.numbers();
        pdf_set_version(pdf, major, minor);
    }

    /// A fresh writer whose header names this version.
    pub fn start_pdf(&self) -> (pdf: Pdf)
        ensures
            pdf_bytes(pdf) == header_bytes_of(self.major(), self.minor()),
    {
        let mut pdf = pdf_new();
        self.set_version(&mut pdf);
        assert(pdf_bytes(pdf) =~= header_bytes_of(self.major(), self.minor()));
        pdf
    }

    /// The bytes with which a document of this version begins.
    pub fn header_bytes(&self) -> (bytes: Vec<u8>)
        ensures
            bytes@ == header_bytes_of(self.major(), self.minor()),
    {
        let pdf = self.start_pdf();
        pdf_to_vec(&pdf)
    }

    /// Whether procedure sets are no longer written at this version.
    pub fn deprecates_proc_sets(&self) -> (b: bool)
        ensures
            b == self.drops_legacy(),
    {
        self.at_least(PdfVersion::Pdf20)
    }

    /// Whether CID sets are no longer written at this version.
    pub fn deprecates_cid_set(&self) -> (b: bool)
        ensures
            b == self.drops_legacy(),
    {
        self.at_least(PdfVersion::Pdf20)
    }
}

/// From 1.5 on, no version is stricter about bit depths than an earlier one:
/// a depth that `v1` allows is allowed by every `v2` that is not older.
pub proof fn lemma_bit_depth_monotone(v1: PdfVersion, v2: PdfVersion, depth: BitsPerComponent)
    requires
        v1.rank() <= v2.rank(),
    ensures
        v1.accepts_bit_depth(depth) ==> v2.accepts_bit_depth(depth),
{
}

/// A depth of 16 bits is refused at 1.4 and allowed from 1.5 on; a depth of
/// 8 bits is allowed at every version.
pub proof fn lemma_bit_depth_gate(v: PdfVersion)
    ensures
        !PdfVersion::Pdf14.accepts_bit_depth(BitsPerComponent::Sixteen),
        PdfVersion::Pdf15.accepts_bit_depth(BitsPerComponent::Sixteen),
        v.accepts_bit_depth(BitsPerComponent::Sixteen) <==> v != PdfVersion::Pdf14,
        v.accepts_bit_depth(BitsPerComponent::Eight),
{
}

/// Once a version drops the legacy constructs, every later version does.
pub proof fn lemma_deprecation_monotone(v1: PdfVersion, v2: PdfVersion)
    requires
        v1.rank() <= v2.rank(),
    ensures
        v1.drops_legacy() ==> v2.drops_legacy(),
{
}

/// The legacy constructs are dropped at 2.0 and at no other version, so 1.7
/// still writes them.
pub proof fn lemma_deprecation_boundary(v: PdfVersion)
    ensures
        v.drops_legacy() <==> v == PdfVersion::Pdf20,
        !PdfVersion::Pdf17.drops_legacy(),
{
}

/// Once a version embeds the modern profiles, every later version does.
pub proof fn lemma_profile_generation_monotone(v1: PdfVersion, v2: PdfVersion)
    requires
        v1.rank() <= v2.rank(),
    ensures
        v1.profile_generation() == ProfileGeneration::Modern ==> v2.profile_generation()
            == ProfileGeneration::Modern,
{
}

/// A profile revision that `v1` embeds is embedded by every `v2` that is not
/// older.
pub proof fn lemma_icc_monotone(v1: PdfVersion, v2: PdfVersion, metadata: ICCMetadata)
    requires
        v1.rank() <= v2.rank(),
    ensures
        v1.accepts_icc(metadata) ==> v2.accepts_icc(metadata),
{
}

/// Every version embeds what 1.4 embeds, the revisions up to 2.2, and none
/// embeds what 2.0 refuses, a major revision above 4 or a minor one above 2.
pub proof fn lemma_icc_range(v: PdfVersion, metadata: ICCMetadata)
    ensures
        PdfVersion::Pdf14.accepts_icc(metadata) <==> metadata.major <= 2 && metadata.minor <= 2,
        PdfVersion::Pdf20.accepts_icc(metadata) <==> metadata.major <= 4 && metadata.minor <= 2,
        PdfVersion::Pdf14.accepts_icc(metadata) ==> v.accepts_icc(metadata),
        v.accepts_icc(metadata) ==> PdfVersion::Pdf20.accepts_icc(metadata),
{
}

/// The minor revision that a version tolerates never shrinks with the version.
pub proof fn lemma_icc_minor_monotone(v1: PdfVersion, v2: PdfVersion)
    requires
        v1.rank() <= v2.rank(),
    ensures
        v1.max_icc_minor() <= v2.max_icc_minor(),
{
}

/// The major revision that a version tolerates never shrinks with the version.
pub proof fn lemma_icc_major_monotone(v1: PdfVersion, v2: PdfVersion)
    requires
        v1.rank() <= v2.rank(),
    ensures
        v1.max_icc_major() <= v2.max_icc_major(),
{
}

/// The rank orders the versions as their numbers do, and tells them apart.
pub proof fn lemma_rank_orders_versions(v1: PdfVersion, v2: PdfVersion)
    ensures
        v1.rank() == v2.rank() <==> v1 == v2,
        v1.rank() < v2.rank() <==> (v1.major() < v2.major() || (v1.major() == v2.major()
            && v1.minor() < v2.minor())),
{
}

} // verus!
