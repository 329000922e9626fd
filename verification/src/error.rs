//! Status codes of the rasterization engine and the errors they name.

use vstd::prelude::*;

verus! {

/// A status of the rasterization engine, by name.
#[derive(Debug, Clone, Copy, PartialEq, Eq, Hash, Structural)]
pub enum Error {
    /// Code 0: the call succeeded.
    Success,
    CannotOpenResource,
    UnknownFileFormat,
    InvalidFileFormat,
    InvalidVersion,
    LowerModuleVersion,
    InvalidArgument,
    UnimplementedFeature,
    InvalidTable,
    InvalidOffset,
    ArrayTooLarge,
    MissingModule,
    MissingProperty,
    InvalidGlyphIndex,
    InvalidCharacterCode,
    InvalidGlyphFormat,
    CannotRenderGlyph,
    InvalidOutline,
    InvalidComposite,
    TooManyHints,
    InvalidPixelSize,
    InvalidHandle,
    InvalidLibraryHandle,
    InvalidDriverHandle,
    InvalidFaceHandle,
    InvalidSizeHandle,
    InvalidSlotHandle,
    InvalidCharMapHandle,
    InvalidCacheHandle,
    InvalidStreamHandle,
    TooManyDrivers,
    TooManyExtensions,
    OutOfMemory,
    UnlistedObject,
    CannotOpenStream,
    InvalidStreamSeek,
    InvalidStreamSkip,
    InvalidStreamRead,
    InvalidStreamOperation,
    InvalidFrameOperation,
    NestedFrameAccess,
    InvalidFrameRead,
    RasterUninitialized,
    RasterCorrupted,
    RasterOverflow,
    RasterNegativeHeight,
    TooManyCaches,
    InvalidOpcode,
    TooFewArguments,
    StackOverflow,
    CodeOverflow,
    BadArgument,
    DivideByZero,
    InvalidReference,
    DebugOpCode,
    ENDFInExecStream,
    NestedDEFS,
    InvalidCodeRange,
    ExecutionTooLong,
    TooManyFunctionDefs,
    TooManyInstructionDefs,
    TableMissing,
    HorizHeaderMissing,
    LocationsMissing,
    NameTableMissing,
    CMapTableMissing,
    HmtxTableMissing,
    PostTableMissing,
    InvalidHorizMetrics,
    InvalidCharMapFormat,
    InvalidPPem,
    InvalidVertMetrics,
    CouldNotFindContext,
    InvalidPostTableFormat,
    InvalidPostTable,
    DEFInGlyfBytecode,
    MissingBitmap,
    SyntaxError,
    StackUnderflow,
    Ignore,
    NoUnicodeGlyphName,
    GlyphTooBig,
    MissingStartfontField,
    MissingFontField,
    MissingSizeField,
    MissingFontboundingboxField,
    MissingCharsField,
    MissingStartcharField,
    MissingEncodingField,
    MissingBbxField,
    BbxTooBig,
    CorruptedFontHeader,
    CorruptedFontGlyphs,
    Max,
}

/// Whether `code` lies in one of the ranges of codes that the engine
/// documents: generic and format errors, glyph and character errors, handle
/// errors, driver errors, memory errors, stream errors, raster errors, cache
/// errors, bytecode-interpreter and table errors, Type 1 and CFF errors, and
/// BDF errors with the closing sentinel.
pub open spec fn known_status(code: int) -> bool {
    ||| 0 <= code <= 12
    ||| 16 <= code <= 23
    ||| 32 <= code <= 40
    ||| 48 <= code <= 49
    ||| 64 <= code <= 65
    ||| 81 <= code <= 88
    ||| 96 <= code <= 99
    ||| code == 112
    ||| 128 <= code <= 157
    ||| 160 <= code <= 164
    ||| 176 <= code <= 187
}

impl Error {
    /// The engine's code for this status.
    pub open spec fn spec_code(self) -> int {
        match self {
            Error::Success => 0,
            Error::CannotOpenResource => 1,
            Error::UnknownFileFormat => 2,
            Error::InvalidFileFormat => 3,
            Error::InvalidVersion => 4,
            Error::LowerModuleVersion => 5,
            Error::InvalidArgument => 6,
            Error::UnimplementedFeature => 7,
            Error::InvalidTable => 8,
            Error::InvalidOffset => 9,
            Error::ArrayTooLarge => 10,
            Error::MissingModule => 11,
            Error::MissingProperty => 12,
            Error::InvalidGlyphIndex => 16,
            Error::InvalidCharacterCode => 17,
            Error::InvalidGlyphFormat => 18,
            Error::CannotRenderGlyph => 19,
            Error::InvalidOutline => 20,
            Error::InvalidComposite => 21,
            Error::TooManyHints => 22,
            Error::InvalidPixelSize => 23,
            Error::InvalidHandle => 32,
            Error::InvalidLibraryHandle => 33,
            Error::InvalidDriverHandle => 34,
            Error::InvalidFaceHandle => 35,
            Error::InvalidSizeHandle => 36,
            Error::InvalidSlotHandle => 37,
            Error::InvalidCharMapHandle => 38,
            Error::InvalidCacheHandle => 39,
            Error::InvalidStreamHandle => 40,
            Error::TooManyDrivers => 48,
            Error::TooManyExtensions => 49,
            Error::OutOfMemory => 64,
            Error::UnlistedObject => 65,
            Error::CannotOpenStream => 81,
            Error::InvalidStreamSeek => 82,
            Error::InvalidStreamSkip => 83,
            Error::InvalidStreamRead => 84,
            Error::InvalidStreamOperation => 85,
            Error::InvalidFrameOperation => 86,
            Error::NestedFrameAccess => 87,
            Error::InvalidFrameRead => 88,
            Error::RasterUninitialized => 96,
            Error::RasterCorrupted => 97,
            Error::RasterOverflow => 98,
            Error::RasterNegativeHeight => 99,
            Error::TooManyCaches => 112,
            Error::InvalidOpcode => 128,
            Error::TooFewArguments => 129,
            Error::StackOverflow => 130,
            Error::CodeOverflow => 131,
            Error::BadArgument => 132,
            Error::DivideByZero => 133,
            Error::InvalidReference => 134,
            Error::DebugOpCode => 135,
            Error::ENDFInExecStream => 136,
            Error::NestedDEFS => 137,
            Error::InvalidCodeRange => 138,
            Error::ExecutionTooLong => 139,
            Error::TooManyFunctionDefs => 140,
            Error::TooManyInstructionDefs => 141,
            Error::TableMissing => 142,
            Error::HorizHeaderMissing => 143,
            Error::LocationsMissing => 144,
            Error::NameTableMissing => 145,
            Error::CMapTableMissing => 146,
            Error::HmtxTableMissing => 147,
            Error::PostTableMissing => 148,
            Error::InvalidHorizMetrics => 149,
            Error::InvalidCharMapFormat => 150,
            Error::InvalidPPem => 151,
            Error::InvalidVertMetrics => 152,
            Error::CouldNotFindContext => 153,
            Error::InvalidPostTableFormat => 154,
            Error::InvalidPostTable => 155,
            Error::DEFInGlyfBytecode => 156,
            Error::MissingBitmap => 157,
            Error::SyntaxError => 160,
            Error::StackUnderflow => 161,
            Error::Ignore => 162,
            Error::NoUnicodeGlyphName => 163,
            Error::GlyphTooBig => 164,
            Error::MissingStartfontField => 176,
            Error::MissingFontField => 177,
            Error::MissingSizeField => 178,
            Error::MissingFontboundingboxField => 179,
            Error::MissingCharsField => 180,
            Error::MissingStartcharField => 181,
            Error::MissingEncodingField => 182,
            Error::MissingBbxField => 183,
            Error::BbxTooBig => 184,
            Error::CorruptedFontHeader => 185,
            Error::CorruptedFontGlyphs => 186,
            Error::Max => 187,
        }
    }

    /// The engine's code for this status.
    #[verifier::when_used_as_spec(spec_code_i32)]
    pub fn code(self) -> (code: i32)
        ensures
            code == self.spec_code(),
            known_status(code as int),
    {
        match self {
            Error::Success => 0,
            Error::CannotOpenResource => 1,
            Error::UnknownFileFormat => 2,
            Error::InvalidFileFormat => 3,
            Error::InvalidVersion => 4,
            Error::LowerModuleVersion => 5,
            Error::InvalidArgument => 6,
            Error::UnimplementedFeature => 7,
            Error::InvalidTable => 8,
            Error::InvalidOffset => 9,
            Error::ArrayTooLarge => 10,
            Error::MissingModule => 11,
            Error::MissingProperty => 12,
            Error::InvalidGlyphIndex => 16,
            Error::InvalidCharacterCode => 17,
            Error::InvalidGlyphFormat => 18,
            Error::CannotRenderGlyph => 19,
            Error::InvalidOutline => 20,
            Error::InvalidComposite => 21,
            Error::TooManyHints => 22,
            Error::InvalidPixelSize => 23,
            Error::InvalidHandle => 32,
            Error::InvalidLibraryHandle => 33,
            Error::InvalidDriverHandle => 34,
            Error::InvalidFaceHandle => 35,
            Error::InvalidSizeHandle => 36,
            Error::InvalidSlotHandle => 37,
            Error::InvalidCharMapHandle => 38,
            Error::InvalidCacheHandle => 39,
            Error::InvalidStreamHandle => 40,
            Error::TooManyDrivers => 48,
            Error::TooManyExtensions => 49,
            Error::OutOfMemory => 64,
            Error::UnlistedObject => 65,
            Error::CannotOpenStream => 81,
            Error::InvalidStreamSeek => 82,
            Error::InvalidStreamSkip => 83,
            Error::InvalidStreamRead => 84,
            Error::InvalidStreamOperation => 85,
            Error::InvalidFrameOperation => 86,
            Error::NestedFrameAccess => 87,
            Error::InvalidFrameRead => 88,
            Error::RasterUninitialized => 96,
            Error::RasterCorrupted => 97,
            Error::RasterOverflow => 98,
            Error::RasterNegativeHeight => 99,
            Error::TooManyCaches => 112,
            Error::InvalidOpcode => 128,
            Error::TooFewArguments => 129,
            Error::StackOverflow => 130,
            Error::CodeOverflow => 131,
            Error::BadArgument => 132,
            Error::DivideByZero => 133,
            Error::InvalidReference => 134,
            Error::DebugOpCode => 135,
            Error::ENDFInExecStream => 136,
            Error::NestedDEFS => 137,
            Error::InvalidCodeRange => 138,
            Error::ExecutionTooLong => 139,
            Error::TooManyFunctionDefs => 140,
            Error::TooManyInstructionDefs => 141,
            Error::TableMissing => 142,
            Error::HorizHeaderMissing => 143,
            Error::LocationsMissing => 144,
            Error::NameTableMissing => 145,
            Error::CMapTableMissing => 146,
            Error::HmtxTableMissing => 147,
            Error::PostTableMissing => 148,
            Error::InvalidHorizMetrics => 149,
            Error::InvalidCharMapFormat => 150,
            Error::InvalidPPem => 151,
            Error::InvalidVertMetrics => 152,
            Error::CouldNotFindContext => 153,
            Error::InvalidPostTableFormat => 154,
            Error::InvalidPostTable => 155,
            Error::DEFInGlyfBytecode => 156,
            Error::MissingBitmap => 157,
            Error::SyntaxError => 160,
            Error::StackUnderflow => 161,
            Error::Ignore => 162,
            Error::NoUnicodeGlyphName => 163,
            Error::GlyphTooBig => 164,
            Error::MissingStartfontField => 176,
            Error::MissingFontField => 177,
            Error::MissingSizeField => 178,
            Error::MissingFontboundingboxField => 179,
            Error::MissingCharsField => 180,
            Error::MissingStartcharField => 181,
            Error::MissingEncodingField => 182,
            Error::MissingBbxField => 183,
            Error::BbxTooBig => 184,
            Error::CorruptedFontHeader => 185,
            Error::CorruptedFontGlyphs => 186,
            Error::Max => 187,
        }
    }

    /// `spec_code` as the integer type of the engine's codes.
    pub open spec fn spec_code_i32(self) -> i32 {
        self.spec_code() as i32
    }

    /// The status that `code` names, if it lies in a known range.
    pub fn from_raw(code: i32) -> (status: Option<Error>)
        ensures
            known_status(code as int) <==> status.is_some(),
            status matches Some(e) ==> e.spec_code() == code,
    {
        match code {
            0 => Some(Error::Success),
            1 => Some(Error::CannotOpenResource),
            2 => Some(Error::UnknownFileFormat),
            3 => Some(Error::InvalidFileFormat),
            4 => Some(Error::InvalidVersion),
            5 => Some(Error::LowerModuleVersion),
            6 => Some(Error::InvalidArgument),
            7 => Some(Error::UnimplementedFeature),
            8 => Some(Error::InvalidTable),
            9 => Some(Error::InvalidOffset),
            10 => Some(Error::ArrayTooLarge),
            11 => Some(Error::MissingModule),
            12 => Some(Error::MissingProperty),
            16 => Some(Error::InvalidGlyphIndex),
            17 => Some(Error::InvalidCharacterCode),
            18 => Some(Error::InvalidGlyphFormat),
            19 => Some(Error::CannotRenderGlyph),
            20 => Some(Error::InvalidOutline),
            21 => Some(Error::InvalidComposite),
            22 => Some(Error::TooManyHints),
            23 => Some(Error::InvalidPixelSize),
            32 => Some(Error::InvalidHandle),
            33 => Some(Error::InvalidLibraryHandle),
            34 => Some(Error::InvalidDriverHandle),
            35 => Some(Error::InvalidFaceHandle),
            36 => Some(Error::InvalidSizeHandle),
            37 => Some(Error::InvalidSlotHandle),
            38 => Some(Error::InvalidCharMapHandle),
            39 => Some(Error::InvalidCacheHandle),
            40 => Some(Error::InvalidStreamHandle),
            48 => Some(Error::TooManyDrivers),
            49 => Some(Error::TooManyExtensions),
            64 => Some(Error::OutOfMemory),
            65 => Some(Error::UnlistedObject),
            81 => Some(Error::CannotOpenStream),
            82 => Some(Error::InvalidStreamSeek),
            83 => Some(Error::InvalidStreamSkip),
            84 => Some(Error::InvalidStreamRead),
            85 => Some(Error::InvalidStreamOperation),
            86 => Some(Error::InvalidFrameOperation),
            87 => Some(Error::NestedFrameAccess),
            88 => Some(Error::InvalidFrameRead),
            96 => Some(Error::RasterUninitialized),
            97 => Some(Error::RasterCorrupted),
            98 => Some(Error::RasterOverflow),
            99 => Some(Error::RasterNegativeHeight),
            112 => Some(Error::TooManyCaches),
            128 => Some(Error::InvalidOpcode),
            129 => Some(Error::TooFewArguments),
            130 => Some(Error::StackOverflow),
            131 => Some(Error::CodeOverflow),
            132 => Some(Error::BadArgument),
            133 => Some(Error::DivideByZero),
            134 => Some(Error::InvalidReference),
            135 => Some(Error::DebugOpCode),
            136 => Some(Error::ENDFInExecStream),
            137 => Some(Error::NestedDEFS),
            138 => Some(Error::InvalidCodeRange),
            139 => Some(Error::ExecutionTooLong),
            140 => Some(Error::TooManyFunctionDefs),
            141 => Some(Error::TooManyInstructionDefs),
            142 => Some(Error::TableMissing),
            143 => Some(Error::HorizHeaderMissing),
            144 => Some(Error::LocationsMissing),
            145 => Some(Error::NameTableMissing),
            146 => Some(Error::CMapTableMissing),
            147 => Some(Error::HmtxTableMissing),
            148 => Some(Error::PostTableMissing),
            149 => Some(Error::InvalidHorizMetrics),
            150 => Some(Error::InvalidCharMapFormat),
            151 => Some(Error::InvalidPPem),
            152 => Some(Error::InvalidVertMetrics),
            153 => Some(Error::CouldNotFindContext),
            154 => Some(Error::InvalidPostTableFormat),
            155 => Some(Error::InvalidPostTable),
            156 => Some(Error::DEFInGlyfBytecode),
            157 => Some(Error::MissingBitmap),
            160 => Some(Error::SyntaxError),
            161 => Some(Error::StackUnderflow),
            162 => Some(Error::Ignore),
            163 => Some(Error::NoUnicodeGlyphName),
            164 => Some(Error::GlyphTooBig),
            176 => Some(Error::MissingStartfontField),
            177 => Some(Error::MissingFontField),
            178 => Some(Error::MissingSizeField),
            179 => Some(Error::MissingFontboundingboxField),
            180 => Some(Error::MissingCharsField),
            181 => Some(Error::MissingStartcharField),
            182 => Some(Error::MissingEncodingField),
            183 => Some(Error::MissingBbxField),
            184 => Some(Error::BbxTooBig),
            185 => Some(Error::CorruptedFontHeader),
            186 => Some(Error::CorruptedFontGlyphs),
            187 => Some(Error::Max),
            _ => None,
        }
    }

    /// The outcome that the status of a native call stands for: code 0 is success,
    /// any other known code is the error it names. A code outside the known
    /// ranges is no answer the engine can give, and is not accepted.
    pub fn check(code: i32) -> (outcome: Result<(), Error>)
        requires
            known_status(code as int),
        ensures
            code == 0 <==> outcome.is_ok(),
            outcome matches Err(e) ==> e.spec_code() == code,
    {
        if code == 0 {
            return Ok(());
        }
        match Error::from_raw(code) {
            Some(e) => Err(e),
            None => vstd::pervasive::unreached(),
        }
    }
}

/// A status is named by its code alone.
pub proof fn lemma_code_names_status(a: Error, b: Error)
    requires
        a.spec_code() == b.spec_code(),
    ensures
        a == b,
{
}

} // verus!
