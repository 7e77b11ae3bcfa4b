//! Encoding tags: how a payload is to be read.

use vstd::prelude::*;

verus! {

/// The content types that have a number of their own.
#[derive(Clone, Copy, Debug, PartialEq, Eq, Structural)]
pub enum KnownEncoding {
    Empty,
    AppOctetStream,
    AppCustom,
    TextPlain,
    AppProperties,
    AppJson,
    AppSql,
    AppInteger,
    AppFloat,
    AppXml,
    AppXhtmlXml,
    AppXWwwFormUrlencoded,
    TextJson,
    TextHtml,
    TextXml,
    TextCss,
    TextCsv,
    TextJavascript,
    ImageJpeg,
    ImagePng,
    ImageGif,
}

impl KnownEncoding {
    /// The number of a content type: 0 for `Empty` up to 20 for `ImageGif`.
    pub open spec fn spec_code(self) -> u8 {
        match self {
            KnownEncoding::Empty => 0,
            KnownEncoding::AppOctetStream => 1,
            KnownEncoding::AppCustom => 2,
            KnownEncoding::TextPlain => 3,
            KnownEncoding::AppProperties => 4,
            KnownEncoding::AppJson => 5,
            KnownEncoding::AppSql => 6,
            KnownEncoding::AppInteger => 7,
            KnownEncoding::AppFloat => 8,
            KnownEncoding::AppXml => 9,
            KnownEncoding::AppXhtmlXml => 10,
            KnownEncoding::AppXWwwFormUrlencoded => 11,
            KnownEncoding::TextJson => 12,
            KnownEncoding::TextHtml => 13,
            KnownEncoding::TextXml => 14,
            KnownEncoding::TextCss => 15,
            KnownEncoding::TextCsv => 16,
            KnownEncoding::TextJavascript => 17,
            KnownEncoding::ImageJpeg => 18,
            KnownEncoding::ImagePng => 19,
            KnownEncoding::ImageGif => 20,
        }
    }

    /// The content type with the given number, if there is one.
    pub open spec fn spec_from_code(code: u8) -> Option<KnownEncoding> {
        if code == 0 {
            Some(KnownEncoding::Empty)
        } else if code == 1 {
            Some(KnownEncoding::AppOctetStream)
        } else if code == 2 {
            Some(KnownEncoding::AppCustom)
        } else if code == 3 {
            Some(KnownEncoding::TextPlain)
        } else if code == 4 {
            Some(KnownEncoding::AppProperties)
        } else if code == 5 {
            Some(KnownEncoding::AppJson)
        } else if code == 6 {
            Some(KnownEncoding::AppSql)
        } else if code == 7 {
            Some(KnownEncoding::AppInteger)
        } else if code == 8 {
            Some(KnownEncoding::AppFloat)
        } else if code == 9 {
            Some(KnownEncoding::AppXml)
        } else if code == 10 {
            Some(KnownEncoding::AppXhtmlXml)
        } else if code == 11 {
            Some(KnownEncoding::AppXWwwFormUrlencoded)
        } else if code == 12 {
            Some(KnownEncoding::TextJson)
        } else if code == 13 {
            Some(KnownEncoding::TextHtml)
        } else if code == 14 {
            Some(KnownEncoding::TextXml)
        } else if code == 15 {
            Some(KnownEncoding::TextCss)
        } else if code == 16 {
            Some(KnownEncoding::TextCsv)
        } else if code == 17 {
            Some(KnownEncoding::TextJavascript)
        } else if code == 18 {
            Some(KnownEncoding::ImageJpeg)
        } else if code == 19 {
            Some(KnownEncoding::ImagePng)
        } else if code == 20 {
            Some(KnownEncoding::ImageGif)
        } else {
            None
        }
    }

    /// The number of this content type.
    pub fn code(self) -> (r: u8)
        ensures
            r == self.spec_code(),
            r <= 20,
            Self::spec_from_code(r) == Some(self),
    {
        match self {
            KnownEncoding::Empty => 0,
            KnownEncoding::AppOctetStream => 1,
            KnownEncoding::AppCustom => 2,
            KnownEncoding::TextPlain => 3,
            KnownEncoding::AppProperties => 4,
            KnownEncoding::AppJson => 5,
            KnownEncoding::AppSql => 6,
            KnownEncoding::AppInteger => 7,
            KnownEncoding::AppFloat => 8,
            KnownEncoding::AppXml => 9,
            KnownEncoding::AppXhtmlXml => 10,
            KnownEncoding::AppXWwwFormUrlencoded => 11,
            KnownEncoding::TextJson => 12,
            KnownEncoding::TextHtml => 13,
            KnownEncoding::TextXml => 14,
            KnownEncoding::TextCss => 15,
            KnownEncoding::TextCsv => 16,
            KnownEncoding::TextJavascript => 17,
            KnownEncoding::ImageJpeg => 18,
            KnownEncoding::ImagePng => 19,
            KnownEncoding::ImageGif => 20,
        }
    }

    /// The content type with the given number; `None` above 20.
    pub fn from_code(code: u8) -> (r: Option<KnownEncoding>)
        ensures
            r == Self::spec_from_code(code),
            r is Some <==> code <= 20,
            r matches Some(k) ==> k.spec_code() == code,
    {
        match code {
            0 => Some(KnownEncoding::Empty),
            1 => Some(KnownEncoding::AppOctetStream),
            2 => Some(KnownEncoding::AppCustom),
            3 => Some(KnownEncoding::TextPlain),
            4 => Some(KnownEncoding::AppProperties),
            5 => Some(KnownEncoding::AppJson),
            6 => Some(KnownEncoding::AppSql),
            7 => Some(KnownEncoding::AppInteger),
            8 => Some(KnownEncoding::AppFloat),
            9 => Some(KnownEncoding::AppXml),
            10 => Some(KnownEncoding::AppXhtmlXml),
            11 => Some(KnownEncoding::AppXWwwFormUrlencoded),
            12 => Some(KnownEncoding::TextJson),
            13 => Some(KnownEncoding::TextHtml),
            14 => Some(KnownEncoding::TextXml),
            15 => Some(KnownEncoding::TextCss),
            16 => Some(KnownEncoding::TextCsv),
            17 => Some(KnownEncoding::TextJavascript),
            18 => Some(KnownEncoding::ImageJpeg),
            19 => Some(KnownEncoding::ImagePng),
            20 => Some(KnownEncoding::ImageGif),
            _ => None,
        }
    }
}

/// An encoding tag: a known content type, alone or followed by free text.
///
/// Two tags are the same only if they have the same shape: a content type
/// alone is not the same tag as that content type with an empty suffix.
#[derive(Debug, PartialEq, Eq)]
pub enum Encoding {
    Exact(KnownEncoding),
    WithSuffix(KnownEncoding, String),
}

impl Encoding {
    /// The tag of a value that was given none: the empty content type, alone.
    pub open spec fn spec_default() -> Encoding {
        Encoding::Exact(KnownEncoding::Empty)
    }

    /// The content type this tag starts with.
    pub open spec fn spec_prefix(self) -> KnownEncoding {
        match self {
            Encoding::Exact(k) => k,
            Encoding::WithSuffix(k, _) => k,
        }
    }

    /// The content type this tag starts with.
    pub fn prefix(&self) -> (r: KnownEncoding)
        ensures
            r == self.spec_prefix(),
    {
        match self {
            Encoding::Exact(k) => *k,
            Encoding::WithSuffix(k, _) => *k,
        }
    }

    /// Whether this is the default tag, which samples leave out.
    pub fn is_default(&self) -> (r: bool)
        ensures
            r == (*self == Self::spec_default()),
    {
        match self {
            Encoding::Exact(k) => *k == KnownEncoding::Empty,
            Encoding::WithSuffix(_, _) => false,
        }
    }
}

impl Default for Encoding {
    fn default() -> (r: Self)
        ensures
            r == Self::spec_default(),
    {
        Encoding::Exact(KnownEncoding::Empty)
    }
}

impl Clone for Encoding {
    fn clone(&self) -> (r: Self)
        ensures
            r == *self,
    {
        match self {
            Encoding::Exact(k) => Encoding::Exact(*k),
            Encoding::WithSuffix(k, s) => Encoding::WithSuffix(*k, s.clone()),
        }
    }
}

impl From<KnownEncoding> for Encoding {
    fn from(k: KnownEncoding) -> (r: Self) {
        Encoding::Exact(k)
    }
}

impl vstd::std_specs::convert::FromSpecImpl<KnownEncoding> for Encoding {
    open spec fn obeys_from_spec() -> bool {
        true
    }

    open spec fn from_spec(k: KnownEncoding) -> Self {
        Encoding::Exact(k)
    }
}

} // verus!
