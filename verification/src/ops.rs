//! The operation set of the Barracuda virtual machine: every operation, its
//! opcode, how many stack values it consumes and produces, and its name.
use vstd::prelude::*;
use crate::text::{str_chars, chars_equal, chars_to_string};

verus! {

/// Every fixed operation of the Barracuda VM. Each one has an opcode (see
/// `as_u32`) and a stack effect (see `consume` and `produce`).
#[allow(non_camel_case_types)]
#[derive(Debug, Clone, Copy, PartialEq, Eq, Structural)]
pub enum FixedBarracudaOperators {
    NULL,
    STK_READ,
    STK_WRITE,
    ADD,
    SUB,
    MUL,
    DIV,
    AND,
    NAND,
    OR,
    NOR,
    XOR,
    NOT,
    INC,
    DEC,
    SWAP,
    DUP,
    OVER,
    DROP,
    LSHIFT,
    RSHIFT,
    NEGATE,
    MALLOC,
    FREE,
    MEMCPY,
    MEMSET,
    READ,
    WRITE,
    ADD_PTR,
    SUB_PTR,
    TERNARY,
    EQ,
    GT,
    GTEQ,
    LT,
    LTEQ,
    NEQ,
    PTR_DEREF,
    ACOS,
    ACOSH,
    ASIN,
    ASINH,
    ATAN,
    ATAN2,
    ATANH,
    CBRT,
    CEIL,
    CPYSGN,
    COS,
    COSH,
    COSPI,
    BESI0,
    BESI1,
    ERF,
    ERFC,
    ERFCI,
    ERFCX,
    ERFI,
    EXP,
    EXP10,
    EXP2,
    EXPM1,
    FABS,
    FDIM,
    FLOOR,
    FMA,
    FMAX,
    FMIN,
    FMOD,
    FREXP,
    HYPOT,
    ILOGB,
    ISFIN,
    ISINF,
    ISNAN,
    BESJ0,
    BESJ1,
    BESJN,
    LDEXP,
    LGAMMA,
    LLRINT,
    LLROUND,
    LOG,
    LOG10,
    LOG1P,
    LOG2,
    LOGB,
    LRINT,
    LROUND,
    MAX,
    MIN,
    MODF,
    NAN,
    NEARINT,
    NXTAFT,
    NORM,
    NORM3D,
    NORM4D,
    NORMCDF,
    NORMCDFINV,
    POW,
    RCBRT,
    REM,
    REMQUO,
    RHYPOT,
    RINT,
    RNORM,
    RNORM3D,
    RNORM4D,
    ROUND,
    RSQRT,
    SCALBLN,
    SCALBN,
    SGNBIT,
    SIN,
    SINH,
    SINPI,
    SQRT,
    TAN,
    TANH,
    TGAMMA,
    TRUNC,
    BESY0,
    BESY1,
    BESYN,
    PRINTC,
    PRINTCT,
    PRINTFF,
    PRINTFFT,
    LDPC,
    LDTID,
    LDNXPTR,
    LDSTK_PTR,
    RCSTK_PTR,
    LDNT,
    LDNX,
    RCNX,
    LDUSPTR,
    LONGLONGTODOUBLE,
    DOUBLETOLONGLONG,
}

/// The largest opcode of any fixed operation.
pub const MAX_FIXED_OPCODE: u32 = 5833;

impl FixedBarracudaOperators {
    /// The opcode of an operation.
    pub open spec fn spec_opcode(self) -> u32 {
        match self {
            Self::NULL => 0x0000,
            Self::STK_READ => 0x0001,
            Self::STK_WRITE => 0x0002,
            Self::ADD => 0x03CC,
            Self::SUB => 0x03CD,
            Self::MUL => 0x03CE,
            Self::DIV => 0x03CF,
            Self::AND => 0x03D0,
            Self::NAND => 0x03D1,
            Self::OR => 0x03D2,
            Self::NOR => 0x03D3,
            Self::XOR => 0x03D4,
            Self::NOT => 0x03D5,
            Self::INC => 0x03D6,
            Self::DEC => 0x03D7,
            Self::SWAP => 0x03D8,
            Self::DUP => 0x03D9,
            Self::OVER => 0x03DA,
            Self::DROP => 0x03DB,
            Self::LSHIFT => 0x03DC,
            Self::RSHIFT => 0x03DD,
            Self::NEGATE => 0x03DE,
            Self::MALLOC => 0x03DF,
            Self::FREE => 0x03E0,
            Self::MEMCPY => 0x03E1,
            Self::MEMSET => 0x03E2,
            Self::READ => 0x03E3,
            Self::WRITE => 0x03E4,
            Self::ADD_PTR => 0x03E5,
            Self::SUB_PTR => 0x03E6,
            Self::TERNARY => 0x03E7,
            Self::EQ => 0x03E8,
            Self::GT => 0x03E9,
            Self::GTEQ => 0x03EA,
            Self::LT => 0x03EB,
            Self::LTEQ => 0x03EC,
            Self::NEQ => 0x03ED,
            Self::PTR_DEREF => 0x03EE,
            Self::ACOS => 0x0798,
            Self::ACOSH => 0x0799,
            Self::ASIN => 0x079A,
            Self::ASINH => 0x079B,
            Self::ATAN => 0x079C,
            Self::ATAN2 => 0x079D,
            Self::ATANH => 0x079E,
            Self::CBRT => 0x079F,
            Self::CEIL => 0x07A0,
            Self::CPYSGN => 0x07A1,
            Self::COS => 0x07A2,
            Self::COSH => 0x07A3,
            Self::COSPI => 0x07A4,
            Self::BESI0 => 0x07A5,
            Self::BESI1 => 0x07A6,
            Self::ERF => 0x07A7,
            Self::ERFC => 0x07A8,
            Self::ERFCI => 0x07A9,
            Self::ERFCX => 0x07AA,
            Self::ERFI => 0x07AB,
            Self::EXP => 0x07AC,
            Self::EXP10 => 0x07AD,
            Self::EXP2 => 0x07AE,
            Self::EXPM1 => 0x07AF,
            Self::FABS => 0x07B0,
            Self::FDIM => 0x07B1,
            Self::FLOOR => 0x07B2,
            Self::FMA => 0x07B3,
            Self::FMAX => 0x07B4,
            Self::FMIN => 0x07B5,
            Self::FMOD => 0x07B6,
            Self::FREXP => 0x07B7,
            Self::HYPOT => 0x07B8,
            Self::ILOGB => 0x07B9,
            Self::ISFIN => 0x07BA,
            Self::ISINF => 0x07BB,
            Self::ISNAN => 0x07BC,
            Self::BESJ0 => 0x07BD,
            Self::BESJ1 => 0x07BE,
            Self::BESJN => 0x07BF,
            Self::LDEXP => 0x07C0,
            Self::LGAMMA => 0x07C1,
            Self::LLRINT => 0x07C2,
            Self::LLROUND => 0x07C3,
            Self::LOG => 0x07C4,
            Self::LOG10 => 0x07C5,
            Self::LOG1P => 0x07C6,
            Self::LOG2 => 0x07C7,
            Self::LOGB => 0x07C8,
            Self::LRINT => 0x07C9,
            Self::LROUND => 0x07CA,
            Self::MAX => 0x07CB,
            Self::MIN => 0x07CC,
            Self::MODF => 0x07CD,
            Self::NAN => 0x07CE,
            Self::NEARINT => 0x07CF,
            Self::NXTAFT => 0x07D0,
            Self::NORM => 0x07D1,
            Self::NORM3D => 0x07D2,
            Self::NORM4D => 0x07D3,
            Self::NORMCDF => 0x07D4,
            Self::NORMCDFINV => 0x07D5,
            Self::POW => 0x07D6,
            Self::RCBRT => 0x07D7,
            Self::REM => 0x07D8,
            Self::REMQUO => 0x07D9,
            Self::RHYPOT => 0x07DA,
            Self::RINT => 0x07DB,
            Self::RNORM => 0x07DC,
            Self::RNORM3D => 0x07DD,
            Self::RNORM4D => 0x07DE,
            Self::ROUND => 0x07DF,
            Self::RSQRT => 0x07E0,
            Self::SCALBLN => 0x07E1,
            Self::SCALBN => 0x07E2,
            Self::SGNBIT => 0x07E3,
            Self::SIN => 0x07E4,
            Self::SINH => 0x07E5,
            Self::SINPI => 0x07E6,
            Self::SQRT => 0x07E7,
            Self::TAN => 0x07E8,
            Self::TANH => 0x07E9,
            Self::TGAMMA => 0x07EA,
            Self::TRUNC => 0x07EB,
            Self::BESY0 => 0x07EC,
            Self::BESY1 => 0x07ED,
            Self::BESYN => 0x07EE,
            Self::PRINTC => 0x0B64,
            Self::PRINTCT => 0x0B65,
            Self::PRINTFF => 0x0B66,
            Self::PRINTFFT => 0x0B67,
            Self::LDPC => 0x12FC,
            Self::LDTID => 0x12FD,
            Self::LDNXPTR => 0x12FE,
            Self::LDSTK_PTR => 0x12FF,
            Self::RCSTK_PTR => 0x1300,
            Self::LDNT => 0x1301,
            Self::LDNX => 0x1302,
            Self::RCNX => 0x1303,
            Self::LDUSPTR => 0x1304,
            Self::LONGLONGTODOUBLE => 0x16C8,
            Self::DOUBLETOLONGLONG => 0x16C9,
        }
    }

    /// Number of stack values an operation takes; -1 when unknown.
    pub open spec fn spec_consume(self) -> i8 {
        match self {
            Self::NULL => 0i8,
            Self::STK_READ => 1i8,
            Self::STK_WRITE => 2i8,
            Self::ADD => 2i8,
            Self::SUB => 2i8,
            Self::MUL => 2i8,
            Self::DIV => 2i8,
            Self::AND => 2i8,
            Self::NAND => 2i8,
            Self::OR => 2i8,
            Self::NOR => 2i8,
            Self::XOR => 2i8,
            Self::NOT => 1i8,
            Self::INC => 1i8,
            Self::DEC => 1i8,
            Self::SWAP => 2i8,
            Self::DUP => 1i8,
            Self::OVER => 2i8,
            Self::DROP => 1i8,
            Self::LSHIFT => 2i8,
            Self::RSHIFT => 2i8,
            Self::NEGATE => 1i8,
            Self::MALLOC => 1i8,
            Self::FREE => 1i8,
            Self::MEMCPY => 3i8,
            Self::MEMSET => 3i8,
            Self::READ => 1i8,
            Self::WRITE => 2i8,
            Self::ADD_PTR => 2i8,
            Self::SUB_PTR => 2i8,
            Self::TERNARY => 3i8,
            Self::EQ => 2i8,
            Self::GT => 2i8,
            Self::GTEQ => 2i8,
            Self::LT => 2i8,
            Self::LTEQ => 2i8,
            Self::NEQ => 2i8,
            Self::PTR_DEREF => 1i8,
            Self::ACOS => 1i8,
            Self::ACOSH => 1i8,
            Self::ASIN => 1i8,
            Self::ASINH => 1i8,
            Self::ATAN => 1i8,
            Self::ATAN2 => 2i8,
            Self::ATANH => 1i8,
            Self::CBRT => 1i8,
            Self::CEIL => 1i8,
            Self::CPYSGN => 2i8,
            Self::COS => 1i8,
            Self::COSH => 1i8,
            Self::COSPI => 1i8,
            Self::BESI0 => 1i8,
            Self::BESI1 => 1i8,
            Self::ERF => 1i8,
            Self::ERFC => 1i8,
            Self::ERFCI => 1i8,
            Self::ERFCX => 1i8,
            Self::ERFI => 1i8,
            Self::EXP => 1i8,
            Self::EXP10 => 1i8,
            Self::EXP2 => 1i8,
            Self::EXPM1 => 1i8,
            Self::FABS => 1i8,
            Self::FDIM => 2i8,
            Self::FLOOR => 1i8,
            Self::FMA => 3i8,
            Self::FMAX => 2i8,
            Self::FMIN => 2i8,
            Self::FMOD => 2i8,
            Self::FREXP => 2i8,
            Self::HYPOT => 2i8,
            Self::ILOGB => 1i8,
            Self::ISFIN => 1i8,
            Self::ISINF => 1i8,
            Self::ISNAN => 1i8,
            Self::BESJ0 => 1i8,
            Self::BESJ1 => 1i8,
            Self::BESJN => 2i8,
            Self::LDEXP => 2i8,
            Self::LGAMMA => 1i8,
            Self::LLRINT => 1i8,
            Self::LLROUND => 1i8,
            Self::LOG => 1i8,
            Self::LOG10 => 1i8,
            Self::LOG1P => 1i8,
            Self::LOG2 => 1i8,
            Self::LOGB => 2i8,
            Self::LRINT => 1i8,
            Self::LROUND => 1i8,
            Self::MAX => 1i8,
            Self::MIN => 1i8,
            Self::MODF => 2i8,
            Self::NAN => -1i8,
            Self::NEARINT => -1i8,
            Self::NXTAFT => 2i8,
            Self::NORM => -1i8,
            Self::NORM3D => -1i8,
            Self::NORM4D => -1i8,
            Self::NORMCDF => -1i8,
            Self::NORMCDFINV => -1i8,
            Self::POW => 2i8,
            Self::RCBRT => 1i8,
            Self::REM => 2i8,
            Self::REMQUO => 3i8,
            Self::RHYPOT => 2i8,
            Self::RINT => 1i8,
            Self::RNORM => -1i8,
            Self::RNORM3D => -1i8,
            Self::RNORM4D => -1i8,
            Self::ROUND => 1i8,
            Self::RSQRT => 1i8,
            Self::SCALBLN => 2i8,
            Self::SCALBN => 2i8,
            Self::SGNBIT => 1i8,
            Self::SIN => 1i8,
            Self::SINH => 1i8,
            Self::SINPI => 1i8,
            Self::SQRT => 1i8,
            Self::TAN => 1i8,
            Self::TANH => 1i8,
            Self::TGAMMA => 1i8,
            Self::TRUNC => 1i8,
            Self::BESY0 => 1i8,
            Self::BESY1 => 1i8,
            Self::BESYN => 2i8,
            Self::PRINTC => 1i8,
            Self::PRINTCT => 2i8,
            Self::PRINTFF => 1i8,
            Self::PRINTFFT => 2i8,
            Self::LDPC => 0i8,
            Self::LDTID => 0i8,
            Self::LDNXPTR => 1i8,
            Self::LDSTK_PTR => 0i8,
            Self::RCSTK_PTR => 1i8,
            Self::LDNT => 0i8,
            Self::LDNX => 1i8,
            Self::RCNX => 2i8,
            Self::LDUSPTR => 0i8,
            Self::LONGLONGTODOUBLE => 1i8,
            Self::DOUBLETOLONGLONG => 1i8,
        }
    }

    /// Number of stack values an operation leaves; -1 when unknown.
    pub open spec fn spec_produce(self) -> i8 {
        match self {
            Self::NULL => 0i8,
            Self::STK_READ => 1i8,
            Self::STK_WRITE => 0i8,
            Self::ADD => 1i8,
            Self::SUB => 1i8,
            Self::MUL => 1i8,
            Self::DIV => 1i8,
            Self::AND => 1i8,
            Self::NAND => 1i8,
            Self::OR => 1i8,
            Self::NOR => 1i8,
            Self::XOR => 1i8,
            Self::NOT => 1i8,
            Self::INC => 1i8,
            Self::DEC => 1i8,
            Self::SWAP => 2i8,
            Self::DUP => 2i8,
            Self::OVER => 3i8,
            Self::DROP => 0i8,
            Self::LSHIFT => 1i8,
            Self::RSHIFT => 1i8,
            Self::NEGATE => 1i8,
            Self::MALLOC => 1i8,
            Self::FREE => 0i8,
            Self::MEMCPY => 0i8,
            Self::MEMSET => 0i8,
            Self::READ => 1i8,
            Self::WRITE => 0i8,
            Self::ADD_PTR => 1i8,
            Self::SUB_PTR => 1i8,
            Self::TERNARY => 1i8,
            Self::EQ => 1i8,
            Self::GT => 1i8,
            Self::GTEQ => 1i8,
            Self::LT => 1i8,
            Self::LTEQ => 1i8,
            Self::NEQ => 1i8,
            Self::PTR_DEREF => 1i8,
            Self::ACOS => 1i8,
            Self::ACOSH => 1i8,
            Self::ASIN => 1i8,
            Self::ASINH => 1i8,
            Self::ATAN => 1i8,
            Self::ATAN2 => 1i8,
            Self::ATANH => 1i8,
            Self::CBRT => 1i8,
            Self::CEIL => 1i8,
            Self::CPYSGN => 1i8,
            Self::COS => 1i8,
            Self::COSH => 1i8,
            Self::COSPI => 1i8,
            Self::BESI0 => 1i8,
            Self::BESI1 => 1i8,
            Self::ERF => 1i8,
            Self::ERFC => 1i8,
            Self::ERFCI => 1i8,
            Self::ERFCX => 1i8,
            Self::ERFI => 1i8,
            Self::EXP => 1i8,
            Self::EXP10 => 1i8,
            Self::EXP2 => 1i8,
            Self::EXPM1 => 1i8,
            Self::FABS => 1i8,
            Self::FDIM => 1i8,
            Self::FLOOR => 1i8,
            Self::FMA => 1i8,
            Self::FMAX => 1i8,
            Self::FMIN => 1i8,
            Self::FMOD => 1i8,
            Self::FREXP => 1i8,
            Self::HYPOT => 1i8,
            Self::ILOGB => 1i8,
            Self::ISFIN => 1i8,
            Self::ISINF => 1i8,
            Self::ISNAN => 1i8,
            Self::BESJ0 => 1i8,
            Self::BESJ1 => 1i8,
            Self::BESJN => 1i8,
            Self::LDEXP => 1i8,
            Self::LGAMMA => 1i8,
            Self::LLRINT => 1i8,
            Self::LLROUND => 1i8,
            Self::LOG => 1i8,
            Self::LOG10 => 1i8,
            Self::LOG1P => 1i8,
            Self::LOG2 => 1i8,
            Self::LOGB => 1i8,
            Self::LRINT => 1i8,
            Self::LROUND => 1i8,
            Self::MAX => 1i8,
            Self::MIN => 1i8,
            Self::MODF => 1i8,
            Self::NAN => -1i8,
            Self::NEARINT => -1i8,
            Self::NXTAFT => 1i8,
            Self::NORM => -1i8,
            Self::NORM3D => -1i8,
            Self::NORM4D => -1i8,
            Self::NORMCDF => -1i8,
            Self::NORMCDFINV => -1i8,
            Self::POW => 1i8,
            Self::RCBRT => 1i8,
            Self::REM => 1i8,
            Self::REMQUO => 1i8,
            Self::RHYPOT => 1i8,
            Self::RINT => 1i8,
            Self::RNORM => -1i8,
            Self::RNORM3D => -1i8,
            Self::RNORM4D => -1i8,
            Self::ROUND => 1i8,
            Self::RSQRT => 1i8,
            Self::SCALBLN => 1i8,
            Self::SCALBN => 1i8,
            Self::SGNBIT => 1i8,
            Self::SIN => 1i8,
            Self::SINH => 1i8,
            Self::SINPI => 1i8,
            Self::SQRT => 1i8,
            Self::TAN => 1i8,
            Self::TANH => 1i8,
            Self::TGAMMA => 1i8,
            Self::TRUNC => 1i8,
            Self::BESY0 => 1i8,
            Self::BESY1 => 1i8,
            Self::BESYN => 1i8,
            Self::PRINTC => 0i8,
            Self::PRINTCT => 0i8,
            Self::PRINTFF => 0i8,
            Self::PRINTFFT => 0i8,
            Self::LDPC => 1i8,
            Self::LDTID => 1i8,
            Self::LDNXPTR => 1i8,
            Self::LDSTK_PTR => 1i8,
            Self::RCSTK_PTR => 0i8,
            Self::LDNT => 1i8,
            Self::LDNX => 1i8,
            Self::RCNX => 0i8,
            Self::LDUSPTR => 1i8,
            Self::LONGLONGTODOUBLE => 1i8,
            Self::DOUBLETOLONGLONG => 1i8,
        }
    }

    /// The textual name of an operation, as written in `.bct` files.
    pub open spec fn spec_name(self) -> Seq<char> {
        match self {
            Self::NULL => seq!['N', 'U', 'L', 'L'],
            Self::STK_READ => seq!['S', 'T', 'K', '_', 'R', 'E', 'A', 'D'],
            Self::STK_WRITE => seq!['S', 'T', 'K', '_', 'W', 'R', 'I', 'T', 'E'],
            Self::ADD => seq!['A', 'D', 'D'],
            Self::SUB => seq!['S', 'U', 'B'],
            Self::MUL => seq!['M', 'U', 'L'],
            Self::DIV => seq!['D', 'I', 'V'],
            Self::AND => seq!['A', 'N', 'D'],
            Self::NAND => seq!['N', 'A', 'N', 'D'],
            Self::OR => seq!['O', 'R'],
            Self::NOR => seq!['N', 'O', 'R'],
            Self::XOR => seq!['X', 'O', 'R'],
            Self::NOT => seq!['N', 'O', 'T'],
            Self::INC => seq!['I', 'N', 'C'],
            Self::DEC => seq!['D', 'E', 'C'],
            Self::SWAP => seq!['S', 'W', 'A', 'P'],
            Self::DUP => seq!['D', 'U', 'P'],
            Self::OVER => seq!['O', 'V', 'E', 'R'],
            Self::DROP => seq!['D', 'R', 'O', 'P'],
            Self::LSHIFT => seq!['L', 'S', 'H', 'I', 'F', 'T'],
            Self::RSHIFT => seq!['R', 'S', 'H', 'I', 'F', 'T'],
            Self::NEGATE => seq!['N', 'E', 'G', 'A', 'T', 'E'],
            Self::MALLOC => seq!['M', 'A', 'L', 'L', 'O', 'C'],
            Self::FREE => seq!['F', 'R', 'E', 'E'],
            Self::MEMCPY => seq!['M', 'E', 'M', 'C', 'P', 'Y'],
            Self::MEMSET => seq!['M', 'E', 'M', 'S', 'E', 'T'],
            Self::READ => seq!['R', 'E', 'A', 'D'],
            Self::WRITE => seq!['W', 'R', 'I', 'T', 'E'],
            Self::ADD_PTR => seq!['A', 'D', 'D', '_', 'P', 'T', 'R'],
            Self::SUB_PTR => seq!['S', 'U', 'B', '_', 'P', 'T', 'R'],
            Self::TERNARY => seq!['T', 'E', 'R', 'N', 'A', 'R', 'Y'],
            Self::EQ => seq!['E', 'Q'],
            Self::GT => seq!['G', 'T'],
            Self::GTEQ => seq!['G', 'T', 'E', 'Q'],
            Self::LT => seq!['L', 'T'],
            Self::LTEQ => seq!['L', 'T', 'E', 'Q'],
            Self::NEQ => seq!['N', 'E', 'Q'],
            Self::PTR_DEREF => seq!['P', 'T', 'R', '_', 'D', 'E', 'R', 'E', 'F'],
            Self::ACOS => seq!['A', 'C', 'O', 'S'],
            Self::ACOSH => seq!['A', 'C', 'O', 'S', 'H'],
            Self::ASIN => seq!['A', 'S', 'I', 'N'],
            Self::ASINH => seq!['A', 'S', 'I', 'N', 'H'],
            Self::ATAN => seq!['A', 'T', 'A', 'N'],
            Self::ATAN2 => seq!['A', 'T', 'A', 'N', '2'],
            Self::ATANH => seq!['A', 'T', 'A', 'N', 'H'],
            Self::CBRT => seq!['C', 'B', 'R', 'T'],
            Self::CEIL => seq!['C', 'E', 'I', 'L'],
            Self::CPYSGN => seq!['C', 'P', 'Y', 'S', 'G', 'N'],
            Self::COS => seq!['C', 'O', 'S'],
            Self::COSH => seq!['C', 'O', 'S', 'H'],
            Self::COSPI => seq!['C', 'O', 'S', 'P', 'I'],
            Self::BESI0 => seq!['B', 'E', 'S', 'I', '0'],
            Self::BESI1 => seq!['B', 'E', 'S', 'I', '1'],
            Self::ERF => seq!['E', 'R', 'F'],
            Self::ERFC => seq!['E', 'R', 'F', 'C'],
            Self::ERFCI => seq!['E', 'R', 'F', 'C', 'I'],
            Self::ERFCX => seq!['E', 'R', 'F', 'C', 'X'],
            Self::ERFI => seq!['E', 'R', 'F', 'I'],
            Self::EXP => seq!['E', 'X', 'P'],
            Self::EXP10 => seq!['E', 'X', 'P', '1', '0'],
            Self::EXP2 => seq!['E', 'X', 'P', '2'],
            Self::EXPM1 => seq!['E', 'X', 'P', 'M', '1'],
            Self::FABS => seq!['F', 'A', 'B', 'S'],
            Self::FDIM => seq!['F', 'D', 'I', 'M'],
            Self::FLOOR => seq!['F', 'L', 'O', 'O', 'R'],
            Self::FMA => seq!['F', 'M', 'A'],
            Self::FMAX => seq!['F', 'M', 'A', 'X'],
            Self::FMIN => seq!['F', 'M', 'I', 'N'],
            Self::FMOD => seq!['F', 'M', 'O', 'D'],
            Self::FREXP => seq!['F', 'R', 'E', 'X', 'P'],
            Self::HYPOT => seq!['H', 'Y', 'P', 'O', 'T'],
            Self::ILOGB => seq!['I', 'L', 'O', 'G', 'B'],
            Self::ISFIN => seq!['I', 'S', 'F', 'I', 'N'],
            Self::ISINF => seq!['I', 'S', 'I', 'N', 'F'],
            Self::ISNAN => seq!['I', 'S', 'N', 'A', 'N'],
            Self::BESJ0 => seq!['B', 'E', 'S', 'J', '0'],
            Self::BESJ1 => seq!['B', 'E', 'S', 'J', '1'],
            Self::BESJN => seq!['B', 'E', 'S', 'J', 'N'],
            Self::LDEXP => seq!['L', 'D', 'E', 'X', 'P'],
            Self::LGAMMA => seq!['L', 'G', 'A', 'M', 'M', 'A'],
            Self::LLRINT => seq!['L', 'L', 'R', 'I', 'N', 'T'],
            Self::LLROUND => seq!['L', 'L', 'R', 'O', 'U', 'N', 'D'],
            Self::LOG => seq!['L', 'O', 'G'],
            Self::LOG10 => seq!['L', 'O', 'G', '1', '0'],
            Self::LOG1P => seq!['L', 'O', 'G', '1', 'P'],
            Self::LOG2 => seq!['L', 'O', 'G', '2'],
            Self::LOGB => seq!['L', 'O', 'G', 'B'],
            Self::LRINT => seq!['L', 'R', 'I', 'N', 'T'],
            Self::LROUND => seq!['L', 'R', 'O', 'U', 'N', 'D'],
            Self::MAX => seq!['M', 'A', 'X'],
            Self::MIN => seq!['M', 'I', 'N'],
            Self::MODF => seq!['M', 'O', 'D', 'F'],
            Self::NAN => seq!['N', 'A', 'N'],
            Self::NEARINT => seq!['N', 'E', 'A', 'R', 'I', 'N', 'T'],
            Self::NXTAFT => seq!['N', 'X', 'T', 'A', 'F', 'T'],
            Self::NORM => seq!['N', 'O', 'R', 'M'],
            Self::NORM3D => seq!['N', 'O', 'R', 'M', '3', 'D'],
            Self::NORM4D => seq!['N', 'O', 'R', 'M', '4', 'D'],
            Self::NORMCDF => seq!['N', 'O', 'R', 'M', 'C', 'D', 'F'],
            Self::NORMCDFINV => seq!['N', 'O', 'R', 'M', 'C', 'D', 'F', 'I', 'N', 'V'],
            Self::POW => seq!['P', 'O', 'W'],
            Self::RCBRT => seq!['R', 'C', 'B', 'R', 'T'],
            Self::REM => seq!['R', 'E', 'M'],
            Self::REMQUO => seq!['R', 'E', 'M', 'Q', 'U', 'O'],
            Self::RHYPOT => seq!['R', 'H', 'Y', 'P', 'O', 'T'],
            Self::RINT => seq!['R', 'I', 'N', 'T'],
            Self::RNORM => seq!['R', 'N', 'O', 'R', 'M'],
            Self::RNORM3D => seq!['R', 'N', 'O', 'R', 'M', '3', 'D'],
            Self::RNORM4D => seq!['R', 'N', 'O', 'R', 'M', '4', 'D'],
            Self::ROUND => seq!['R', 'O', 'U', 'N', 'D'],
            Self::RSQRT => seq!['R', 'S', 'Q', 'R', 'T'],
            Self::SCALBLN => seq!['S', 'C', 'A', 'L', 'B', 'L', 'N'],
            Self::SCALBN => seq!['S', 'C', 'A', 'L', 'B', 'N'],
            Self::SGNBIT => seq!['S', 'G', 'N', 'B', 'I', 'T'],
            Self::SIN => seq!['S', 'I', 'N'],
            Self::SINH => seq!['S', 'I', 'N', 'H'],
            Self::SINPI => seq!['S', 'I', 'N', 'P', 'I'],
            Self::SQRT => seq!['S', 'Q', 'R', 'T'],
            Self::TAN => seq!['T', 'A', 'N'],
            Self::TANH => seq!['T', 'A', 'N', 'H'],
            Self::TGAMMA => seq!['T', 'G', 'A', 'M', 'M', 'A'],
            Self::TRUNC => seq!['T', 'R', 'U', 'N', 'C'],
            Self::BESY0 => seq!['B', 'E', 'S', 'Y', '0'],
            Self::BESY1 => seq!['B', 'E', 'S', 'Y', '1'],
            Self::BESYN => seq!['B', 'E', 'S', 'Y', 'N'],
            Self::PRINTC => seq!['P', 'R', 'I', 'N', 'T', 'C'],
            Self::PRINTCT => seq!['P', 'R', 'I', 'N', 'T', 'C', 'T'],
            Self::PRINTFF => seq!['P', 'R', 'I', 'N', 'T', 'F', 'F'],
            Self::PRINTFFT => seq!['P', 'R', 'I', 'N', 'T', 'F', 'F', 'T'],
            Self::LDPC => seq!['L', 'D', 'P', 'C'],
            Self::LDTID => seq!['L', 'D', 'T', 'I', 'D'],
            Self::LDNXPTR => seq!['L', 'D', 'N', 'X', 'P', 'T', 'R'],
            Self::LDSTK_PTR => seq!['L', 'D', 'S', 'T', 'K', '_', 'P', 'T', 'R'],
            Self::RCSTK_PTR => seq!['R', 'C', 'S', 'T', 'K', '_', 'P', 'T', 'R'],
            Self::LDNT => seq!['L', 'D', 'N', 'T'],
            Self::LDNX => seq!['L', 'D', 'N', 'X'],
            Self::RCNX => seq!['R', 'C', 'N', 'X'],
            Self::LDUSPTR => seq!['L', 'D', 'U', 'S', 'P', 'T', 'R'],
            Self::LONGLONGTODOUBLE => seq!['L', 'O', 'N', 'G', 'L', 'O', 'N', 'G', 'T', 'O', 'D', 'O', 'U', 'B', 'L', 'E'],
            Self::DOUBLETOLONGLONG => seq!['D', 'O', 'U', 'B', 'L', 'E', 'T', 'O', 'L', 'O', 'N', 'G', 'L', 'O', 'N', 'G'],
        }
    }

    /// The operation that has a given opcode, if any.
    #[verifier::opaque]
    pub open spec fn spec_from_opcode(opcode: u32) -> Option<Self> {
        match opcode {
            0x0000 => Some(Self::NULL),
            0x0001 => Some(Self::STK_READ),
            0x0002 => Some(Self::STK_WRITE),
            0x03CC => Some(Self::ADD),
            0x03CD => Some(Self::SUB),
            0x03CE => Some(Self::MUL),
            0x03CF => Some(Self::DIV),
            0x03D0 => Some(Self::AND),
            0x03D1 => Some(Self::NAND),
            0x03D2 => Some(Self::OR),
            0x03D3 => Some(Self::NOR),
            0x03D4 => Some(Self::XOR),
            0x03D5 => Some(Self::NOT),
            0x03D6 => Some(Self::INC),
            0x03D7 => Some(Self::DEC),
            0x03D8 => Some(Self::SWAP),
            0x03D9 => Some(Self::DUP),
            0x03DA => Some(Self::OVER),
            0x03DB => Some(Self::DROP),
            0x03DC => Some(Self::LSHIFT),
            0x03DD => Some(Self::RSHIFT),
            0x03DE => Some(Self::NEGATE),
            0x03DF => Some(Self::MALLOC),
            0x03E0 => Some(Self::FREE),
            0x03E1 => Some(Self::MEMCPY),
            0x03E2 => Some(Self::MEMSET),
            0x03E3 => Some(Self::READ),
            0x03E4 => Some(Self::WRITE),
            0x03E5 => Some(Self::ADD_PTR),
            0x03E6 => Some(Self::SUB_PTR),
            0x03E7 => Some(Self::TERNARY),
            0x03E8 => Some(Self::EQ),
            0x03E9 => Some(Self::GT),
            0x03EA => Some(Self::GTEQ),
            0x03EB => Some(Self::LT),
            0x03EC => Some(Self::LTEQ),
            0x03ED => Some(Self::NEQ),
            0x03EE => Some(Self::PTR_DEREF),
            0x0798 => Some(Self::ACOS),
            0x0799 => Some(Self::ACOSH),
            0x079A => Some(Self::ASIN),
            0x079B => Some(Self::ASINH),
            0x079C => Some(Self::ATAN),
            0x079D => Some(Self::ATAN2),
            0x079E => Some(Self::ATANH),
            0x079F => Some(Self::CBRT),
            0x07A0 => Some(Self::CEIL),
            0x07A1 => Some(Self::CPYSGN),
            0x07A2 => Some(Self::COS),
            0x07A3 => Some(Self::COSH),
            0x07A4 => Some(Self::COSPI),
            0x07A5 => Some(Self::BESI0),
            0x07A6 => Some(Self::BESI1),
            0x07A7 => Some(Self::ERF),
            0x07A8 => Some(Self::ERFC),
            0x07A9 => Some(Self::ERFCI),
            0x07AA => Some(Self::ERFCX),
            0x07AB => Some(Self::ERFI),
            0x07AC => Some(Self::EXP),
            0x07AD => Some(Self::EXP10),
            0x07AE => Some(Self::EXP2),
            0x07AF => Some(Self::EXPM1),
            0x07B0 => Some(Self::FABS),
            0x07B1 => Some(Self::FDIM),
            0x07B2 => Some(Self::FLOOR),
            0x07B3 => Some(Self::FMA),
            0x07B4 => Some(Self::FMAX),
            0x07B5 => Some(Self::FMIN),
            0x07B6 => Some(Self::FMOD),
            0x07B7 => Some(Self::FREXP),
            0x07B8 => Some(Self::HYPOT),
            0x07B9 => Some(Self::ILOGB),
            0x07BA => Some(Self::ISFIN),
            0x07BB => Some(Self::ISINF),
            0x07BC => Some(Self::ISNAN),
            0x07BD => Some(Self::BESJ0),
            0x07BE => Some(Self::BESJ1),
            0x07BF => Some(Self::BESJN),
            0x07C0 => Some(Self::LDEXP),
            0x07C1 => Some(Self::LGAMMA),
            0x07C2 => Some(Self::LLRINT),
            0x07C3 => Some(Self::LLROUND),
            0x07C4 => Some(Self::LOG),
            0x07C5 => Some(Self::LOG10),
            0x07C6 => Some(Self::LOG1P),
            0x07C7 => Some(Self::LOG2),
            0x07C8 => Some(Self::LOGB),
            0x07C9 => Some(Self::LRINT),
            0x07CA => Some(Self::LROUND),
            0x07CB => Some(Self::MAX),
            0x07CC => Some(Self::MIN),
            0x07CD => Some(Self::MODF),
            0x07CE => Some(Self::NAN),
            0x07CF => Some(Self::NEARINT),
            0x07D0 => Some(Self::NXTAFT),
            0x07D1 => Some(Self::NORM),
            0x07D2 => Some(Self::NORM3D),
            0x07D3 => Some(Self::NORM4D),
            0x07D4 => Some(Self::NORMCDF),
            0x07D5 => Some(Self::NORMCDFINV),
            0x07D6 => Some(Self::POW),
            0x07D7 => Some(Self::RCBRT),
            0x07D8 => Some(Self::REM),
            0x07D9 => Some(Self::REMQUO),
            0x07DA => Some(Self::RHYPOT),
            0x07DB => Some(Self::RINT),
            0x07DC => Some(Self::RNORM),
            0x07DD => Some(Self::RNORM3D),
            0x07DE => Some(Self::RNORM4D),
            0x07DF => Some(Self::ROUND),
            0x07E0 => Some(Self::RSQRT),
            0x07E1 => Some(Self::SCALBLN),
            0x07E2 => Some(Self::SCALBN),
            0x07E3 => Some(Self::SGNBIT),
            0x07E4 => Some(Self::SIN),
            0x07E5 => Some(Self::SINH),
            0x07E6 => Some(Self::SINPI),
            0x07E7 => Some(Self::SQRT),
            0x07E8 => Some(Self::TAN),
            0x07E9 => Some(Self::TANH),
            0x07EA => Some(Self::TGAMMA),
            0x07EB => Some(Self::TRUNC),
            0x07EC => Some(Self::BESY0),
            0x07ED => Some(Self::BESY1),
            0x07EE => Some(Self::BESYN),
            0x0B64 => Some(Self::PRINTC),
            0x0B65 => Some(Self::PRINTCT),
            0x0B66 => Some(Self::PRINTFF),
            0x0B67 => Some(Self::PRINTFFT),
            0x12FC => Some(Self::LDPC),
            0x12FD => Some(Self::LDTID),
            0x12FE => Some(Self::LDNXPTR),
            0x12FF => Some(Self::LDSTK_PTR),
            0x1300 => Some(Self::RCSTK_PTR),
            0x1301 => Some(Self::LDNT),
            0x1302 => Some(Self::LDNX),
            0x1303 => Some(Self::RCNX),
            0x1304 => Some(Self::LDUSPTR),
            0x16C8 => Some(Self::LONGLONGTODOUBLE),
            0x16C9 => Some(Self::DOUBLETOLONGLONG),
            _ => None,
        }
    }

    /// Converts an opcode value into the operation it denotes.
    /// Returns `None` when no operation has that opcode.
    pub fn from(opcode: u32) -> (r: Option<Self>)
        ensures
            r == Self::spec_from_opcode(opcode),
    {
        reveal(FixedBarracudaOperators::spec_from_opcode);
        match opcode {
            0x0000 => Some(Self::NULL),
            0x0001 => Some(Self::STK_READ),
            0x0002 => Some(Self::STK_WRITE),
            0x03CC => Some(Self::ADD),
            0x03CD => Some(Self::SUB),
            0x03CE => Some(Self::MUL),
            0x03CF => Some(Self::DIV),
            0x03D0 => Some(Self::AND),
            0x03D1 => Some(Self::NAND),
            0x03D2 => Some(Self::OR),
            0x03D3 => Some(Self::NOR),
            0x03D4 => Some(Self::XOR),
            0x03D5 => Some(Self::NOT),
            0x03D6 => Some(Self::INC),
            0x03D7 => Some(Self::DEC),
            0x03D8 => Some(Self::SWAP),
            0x03D9 => Some(Self::DUP),
            0x03DA => Some(Self::OVER),
            0x03DB => Some(Self::DROP),
            0x03DC => Some(Self::LSHIFT),
            0x03DD => Some(Self::RSHIFT),
            0x03DE => Some(Self::NEGATE),
            0x03DF => Some(Self::MALLOC),
            0x03E0 => Some(Self::FREE),
            0x03E1 => Some(Self::MEMCPY),
            0x03E2 => Some(Self::MEMSET),
            0x03E3 => Some(Self::READ),
            0x03E4 => Some(Self::WRITE),
            0x03E5 => Some(Self::ADD_PTR),
            0x03E6 => Some(Self::SUB_PTR),
            0x03E7 => Some(Self::TERNARY),
            0x03E8 => Some(Self::EQ),
            0x03E9 => Some(Self::GT),
            0x03EA => Some(Self::GTEQ),
            0x03EB => Some(Self::LT),
            0x03EC => Some(Self::LTEQ),
            0x03ED => Some(Self::NEQ),
            0x03EE => Some(Self::PTR_DEREF),
            0x0798 => Some(Self::ACOS),
            0x0799 => Some(Self::ACOSH),
            0x079A => Some(Self::ASIN),
            0x079B => Some(Self::ASINH),
            0x079C => Some(Self::ATAN),
            0x079D => Some(Self::ATAN2),
            0x079E => Some(Self::ATANH),
            0x079F => Some(Self::CBRT),
            0x07A0 => Some(Self::CEIL),
            0x07A1 => Some(Self::CPYSGN),
            0x07A2 => Some(Self::COS),
            0x07A3 => Some(Self::COSH),
            0x07A4 => Some(Self::COSPI),
            0x07A5 => Some(Self::BESI0),
            0x07A6 => Some(Self::BESI1),
            0x07A7 => Some(Self::ERF),
            0x07A8 => Some(Self::ERFC),
            0x07A9 => Some(Self::ERFCI),
            0x07AA => Some(Self::ERFCX),
            0x07AB => Some(Self::ERFI),
            0x07AC => Some(Self::EXP),
            0x07AD => Some(Self::EXP10),
            0x07AE => Some(Self::EXP2),
            0x07AF => Some(Self::EXPM1),
            0x07B0 => Some(Self::FABS),
            0x07B1 => Some(Self::FDIM),
            0x07B2 => Some(Self::FLOOR),
            0x07B3 => Some(Self::FMA),
            0x07B4 => Some(Self::FMAX),
            0x07B5 => Some(Self::FMIN),
            0x07B6 => Some(Self::FMOD),
            0x07B7 => Some(Self::FREXP),
            0x07B8 => Some(Self::HYPOT),
            0x07B9 => Some(Self::ILOGB),
            0x07BA => Some(Self::ISFIN),
            0x07BB => Some(Self::ISINF),
            0x07BC => Some(Self::ISNAN),
            0x07BD => Some(Self::BESJ0),
            0x07BE => Some(Self::BESJ1),
            0x07BF => Some(Self::BESJN),
            0x07C0 => Some(Self::LDEXP),
            0x07C1 => Some(Self::LGAMMA),
            0x07C2 => Some(Self::LLRINT),
            0x07C3 => Some(Self::LLROUND),
            0x07C4 => Some(Self::LOG),
            0x07C5 => Some(Self::LOG10),
            0x07C6 => Some(Self::LOG1P),
            0x07C7 => Some(Self::LOG2),
            0x07C8 => Some(Self::LOGB),
            0x07C9 => Some(Self::LRINT),
            0x07CA => Some(Self::LROUND),
            0x07CB => Some(Self::MAX),
            0x07CC => Some(Self::MIN),
            0x07CD => Some(Self::MODF),
            0x07CE => Some(Self::NAN),
            0x07CF => Some(Self::NEARINT),
            0x07D0 => Some(Self::NXTAFT),
            0x07D1 => Some(Self::NORM),
            0x07D2 => Some(Self::NORM3D),
            0x07D3 => Some(Self::NORM4D),
            0x07D4 => Some(Self::NORMCDF),
            0x07D5 => Some(Self::NORMCDFINV),
            0x07D6 => Some(Self::POW),
            0x07D7 => Some(Self::RCBRT),
            0x07D8 => Some(Self::REM),
            0x07D9 => Some(Self::REMQUO),
            0x07DA => Some(Self::RHYPOT),
            0x07DB => Some(Self::RINT),
            0x07DC => Some(Self::RNORM),
            0x07DD => Some(Self::RNORM3D),
            0x07DE => Some(Self::RNORM4D),
            0x07DF => Some(Self::ROUND),
            0x07E0 => Some(Self::RSQRT),
            0x07E1 => Some(Self::SCALBLN),
            0x07E2 => Some(Self::SCALBN),
            0x07E3 => Some(Self::SGNBIT),
            0x07E4 => Some(Self::SIN),
            0x07E5 => Some(Self::SINH),
            0x07E6 => Some(Self::SINPI),
            0x07E7 => Some(Self::SQRT),
            0x07E8 => Some(Self::TAN),
            0x07E9 => Some(Self::TANH),
            0x07EA => Some(Self::TGAMMA),
            0x07EB => Some(Self::TRUNC),
            0x07EC => Some(Self::BESY0),
            0x07ED => Some(Self::BESY1),
            0x07EE => Some(Self::BESYN),
            0x0B64 => Some(Self::PRINTC),
            0x0B65 => Some(Self::PRINTCT),
            0x0B66 => Some(Self::PRINTFF),
            0x0B67 => Some(Self::PRINTFFT),
            0x12FC => Some(Self::LDPC),
            0x12FD => Some(Self::LDTID),
            0x12FE => Some(Self::LDNXPTR),
            0x12FF => Some(Self::LDSTK_PTR),
            0x1300 => Some(Self::RCSTK_PTR),
            0x1301 => Some(Self::LDNT),
            0x1302 => Some(Self::LDNX),
            0x1303 => Some(Self::RCNX),
            0x1304 => Some(Self::LDUSPTR),
            0x16C8 => Some(Self::LONGLONGTODOUBLE),
            0x16C9 => Some(Self::DOUBLETOLONGLONG),
            _ => None,
        }
    }

    /// The opcode of this operation.
    pub fn as_u32(&self) -> (r: u32)
        ensures
            r == self.spec_opcode(),
    {
        match self {
            Self::NULL => 0x0000,
            Self::STK_READ => 0x0001,
            Self::STK_WRITE => 0x0002,
            Self::ADD => 0x03CC,
            Self::SUB => 0x03CD,
            Self::MUL => 0x03CE,
            Self::DIV => 0x03CF,
            Self::AND => 0x03D0,
            Self::NAND => 0x03D1,
            Self::OR => 0x03D2,
            Self::NOR => 0x03D3,
            Self::XOR => 0x03D4,
            Self::NOT => 0x03D5,
            Self::INC => 0x03D6,
            Self::DEC => 0x03D7,
            Self::SWAP => 0x03D8,
            Self::DUP => 0x03D9,
            Self::OVER => 0x03DA,
            Self::DROP => 0x03DB,
            Self::LSHIFT => 0x03DC,
            Self::RSHIFT => 0x03DD,
            Self::NEGATE => 0x03DE,
            Self::MALLOC => 0x03DF,
            Self::FREE => 0x03E0,
            Self::MEMCPY => 0x03E1,
            Self::MEMSET => 0x03E2,
            Self::READ => 0x03E3,
            Self::WRITE => 0x03E4,
            Self::ADD_PTR => 0x03E5,
            Self::SUB_PTR => 0x03E6,
            Self::TERNARY => 0x03E7,
            Self::EQ => 0x03E8,
            Self::GT => 0x03E9,
            Self::GTEQ => 0x03EA,
            Self::LT => 0x03EB,
            Self::LTEQ => 0x03EC,
            Self::NEQ => 0x03ED,
            Self::PTR_DEREF => 0x03EE,
            Self::ACOS => 0x0798,
            Self::ACOSH => 0x0799,
            Self::ASIN => 0x079A,
            Self::ASINH => 0x079B,
            Self::ATAN => 0x079C,
            Self::ATAN2 => 0x079D,
            Self::ATANH => 0x079E,
            Self::CBRT => 0x079F,
            Self::CEIL => 0x07A0,
            Self::CPYSGN => 0x07A1,
            Self::COS => 0x07A2,
            Self::COSH => 0x07A3,
            Self::COSPI => 0x07A4,
            Self::BESI0 => 0x07A5,
            Self::BESI1 => 0x07A6,
            Self::ERF => 0x07A7,
            Self::ERFC => 0x07A8,
            Self::ERFCI => 0x07A9,
            Self::ERFCX => 0x07AA,
            Self::ERFI => 0x07AB,
            Self::EXP => 0x07AC,
            Self::EXP10 => 0x07AD,
            Self::EXP2 => 0x07AE,
            Self::EXPM1 => 0x07AF,
            Self::FABS => 0x07B0,
            Self::FDIM => 0x07B1,
            Self::FLOOR => 0x07B2,
            Self::FMA => 0x07B3,
            Self::FMAX => 0x07B4,
            Self::FMIN => 0x07B5,
            Self::FMOD => 0x07B6,
            Self::FREXP => 0x07B7,
            Self::HYPOT => 0x07B8,
            Self::ILOGB => 0x07B9,
            Self::ISFIN => 0x07BA,
            Self::ISINF => 0x07BB,
            Self::ISNAN => 0x07BC,
            Self::BESJ0 => 0x07BD,
            Self::BESJ1 => 0x07BE,
            Self::BESJN => 0x07BF,
            Self::LDEXP => 0x07C0,
            Self::LGAMMA => 0x07C1,
            Self::LLRINT => 0x07C2,
            Self::LLROUND => 0x07C3,
            Self::LOG => 0x07C4,
            Self::LOG10 => 0x07C5,
            Self::LOG1P => 0x07C6,
            Self::LOG2 => 0x07C7,
            Self::LOGB => 0x07C8,
            Self::LRINT => 0x07C9,
            Self::LROUND => 0x07CA,
            Self::MAX => 0x07CB,
            Self::MIN => 0x07CC,
            Self::MODF => 0x07CD,
            Self::NAN => 0x07CE,
            Self::NEARINT => 0x07CF,
            Self::NXTAFT => 0x07D0,
            Self::NORM => 0x07D1,
            Self::NORM3D => 0x07D2,
            Self::NORM4D => 0x07D3,
            Self::NORMCDF => 0x07D4,
            Self::NORMCDFINV => 0x07D5,
            Self::POW => 0x07D6,
            Self::RCBRT => 0x07D7,
            Self::REM => 0x07D8,
            Self::REMQUO => 0x07D9,
            Self::RHYPOT => 0x07DA,
            Self::RINT => 0x07DB,
            Self::RNORM => 0x07DC,
            Self::RNORM3D => 0x07DD,
            Self::RNORM4D => 0x07DE,
            Self::ROUND => 0x07DF,
            Self::RSQRT => 0x07E0,
            Self::SCALBLN => 0x07E1,
            Self::SCALBN => 0x07E2,
            Self::SGNBIT => 0x07E3,
            Self::SIN => 0x07E4,
            Self::SINH => 0x07E5,
            Self::SINPI => 0x07E6,
            Self::SQRT => 0x07E7,
            Self::TAN => 0x07E8,
            Self::TANH => 0x07E9,
            Self::TGAMMA => 0x07EA,
            Self::TRUNC => 0x07EB,
            Self::BESY0 => 0x07EC,
            Self::BESY1 => 0x07ED,
            Self::BESYN => 0x07EE,
            Self::PRINTC => 0x0B64,
            Self::PRINTCT => 0x0B65,
            Self::PRINTFF => 0x0B66,
            Self::PRINTFFT => 0x0B67,
            Self::LDPC => 0x12FC,
            Self::LDTID => 0x12FD,
            Self::LDNXPTR => 0x12FE,
            Self::LDSTK_PTR => 0x12FF,
            Self::RCSTK_PTR => 0x1300,
            Self::LDNT => 0x1301,
            Self::LDNX => 0x1302,
            Self::RCNX => 0x1303,
            Self::LDUSPTR => 0x1304,
            Self::LONGLONGTODOUBLE => 0x16C8,
            Self::DOUBLETOLONGLONG => 0x16C9,
        }
    }

    /// How many arguments the operation takes from the stack (-1 if unknown).
    pub fn consume(&self) -> (r: i8)
        ensures
            r == self.spec_consume(),
    {
        match self {
            Self::NULL => 0,
            Self::STK_READ => 1,
            Self::STK_WRITE => 2,
            Self::ADD => 2,
            Self::SUB => 2,
            Self::MUL => 2,
            Self::DIV => 2,
            Self::AND => 2,
            Self::NAND => 2,
            Self::OR => 2,
            Self::NOR => 2,
            Self::XOR => 2,
            Self::NOT => 1,
            Self::INC => 1,
            Self::DEC => 1,
            Self::SWAP => 2,
            Self::DUP => 1,
            Self::OVER => 2,
            Self::DROP => 1,
            Self::LSHIFT => 2,
            Self::RSHIFT => 2,
            Self::NEGATE => 1,
            Self::MALLOC => 1,
            Self::FREE => 1,
            Self::MEMCPY => 3,
            Self::MEMSET => 3,
            Self::READ => 1,
            Self::WRITE => 2,
            Self::ADD_PTR => 2,
            Self::SUB_PTR => 2,
            Self::TERNARY => 3,
            Self::EQ => 2,
            Self::GT => 2,
            Self::GTEQ => 2,
            Self::LT => 2,
            Self::LTEQ => 2,
            Self::NEQ => 2,
            Self::PTR_DEREF => 1,
            Self::ACOS => 1,
            Self::ACOSH => 1,
            Self::ASIN => 1,
            Self::ASINH => 1,
            Self::ATAN => 1,
            Self::ATAN2 => 2,
            Self::ATANH => 1,
            Self::CBRT => 1,
            Self::CEIL => 1,
            Self::CPYSGN => 2,
            Self::COS => 1,
            Self::COSH => 1,
            Self::COSPI => 1,
            Self::BESI0 => 1,
            Self::BESI1 => 1,
            Self::ERF => 1,
            Self::ERFC => 1,
            Self::ERFCI => 1,
            Self::ERFCX => 1,
            Self::ERFI => 1,
            Self::EXP => 1,
            Self::EXP10 => 1,
            Self::EXP2 => 1,
            Self::EXPM1 => 1,
            Self::FABS => 1,
            Self::FDIM => 2,
            Self::FLOOR => 1,
            Self::FMA => 3,
            Self::FMAX => 2,
            Self::FMIN => 2,
            Self::FMOD => 2,
            Self::FREXP => 2,
            Self::HYPOT => 2,
            Self::ILOGB => 1,
            Self::ISFIN => 1,
            Self::ISINF => 1,
            Self::ISNAN => 1,
            Self::BESJ0 => 1,
            Self::BESJ1 => 1,
            Self::BESJN => 2,
            Self::LDEXP => 2,
            Self::LGAMMA => 1,
            Self::LLRINT => 1,
            Self::LLROUND => 1,
            Self::LOG => 1,
            Self::LOG10 => 1,
            Self::LOG1P => 1,
            Self::LOG2 => 1,
            Self::LOGB => 2,
            Self::LRINT => 1,
            Self::LROUND => 1,
            Self::MAX => 1,
            Self::MIN => 1,
            Self::MODF => 2,
            Self::NAN => -1,
            Self::NEARINT => -1,
            Self::NXTAFT => 2,
            Self::NORM => -1,
            Self::NORM3D => -1,
            Self::NORM4D => -1,
            Self::NORMCDF => -1,
            Self::NORMCDFINV => -1,
            Self::POW => 2,
            Self::RCBRT => 1,
            Self::REM => 2,
            Self::REMQUO => 3,
            Self::RHYPOT => 2,
            Self::RINT => 1,
            Self::RNORM => -1,
            Self::RNORM3D => -1,
            Self::RNORM4D => -1,
            Self::ROUND => 1,
            Self::RSQRT => 1,
            Self::SCALBLN => 2,
            Self::SCALBN => 2,
            Self::SGNBIT => 1,
            Self::SIN => 1,
            Self::SINH => 1,
            Self::SINPI => 1,
            Self::SQRT => 1,
            Self::TAN => 1,
            Self::TANH => 1,
            Self::TGAMMA => 1,
            Self::TRUNC => 1,
            Self::BESY0 => 1,
            Self::BESY1 => 1,
            Self::BESYN => 2,
            Self::PRINTC => 1,
            Self::PRINTCT => 2,
            Self::PRINTFF => 1,
            Self::PRINTFFT => 2,
            Self::LDPC => 0,
            Self::LDTID => 0,
            Self::LDNXPTR => 1,
            Self::LDSTK_PTR => 0,
            Self::RCSTK_PTR => 1,
            Self::LDNT => 0,
            Self::LDNX => 1,
            Self::RCNX => 2,
            Self::LDUSPTR => 0,
            Self::LONGLONGTODOUBLE => 1,
            Self::DOUBLETOLONGLONG => 1,
        }
    }

    /// How many values the operation leaves on the stack (-1 if unknown).
    pub fn produce(&self) -> (r: i8)
        ensures
            r == self.spec_produce(),
    {
        match self {
            Self::NULL => 0,
            Self::STK_READ => 1,
            Self::STK_WRITE => 0,
            Self::ADD => 1,
            Self::SUB => 1,
            Self::MUL => 1,
            Self::DIV => 1,
            Self::AND => 1,
            Self::NAND => 1,
            Self::OR => 1,
            Self::NOR => 1,
            Self::XOR => 1,
            Self::NOT => 1,
            Self::INC => 1,
            Self::DEC => 1,
            Self::SWAP => 2,
            Self::DUP => 2,
            Self::OVER => 3,
            Self::DROP => 0,
            Self::LSHIFT => 1,
            Self::RSHIFT => 1,
            Self::NEGATE => 1,
            Self::MALLOC => 1,
            Self::FREE => 0,
            Self::MEMCPY => 0,
            Self::MEMSET => 0,
            Self::READ => 1,
            Self::WRITE => 0,
            Self::ADD_PTR => 1,
            Self::SUB_PTR => 1,
            Self::TERNARY => 1,
            Self::EQ => 1,
            Self::GT => 1,
            Self::GTEQ => 1,
            Self::LT => 1,
            Self::LTEQ => 1,
            Self::NEQ => 1,
            Self::PTR_DEREF => 1,
            Self::ACOS => 1,
            Self::ACOSH => 1,
            Self::ASIN => 1,
            Self::ASINH => 1,
            Self::ATAN => 1,
            Self::ATAN2 => 1,
            Self::ATANH => 1,
            Self::CBRT => 1,
            Self::CEIL => 1,
            Self::CPYSGN => 1,
            Self::COS => 1,
            Self::COSH => 1,
            Self::COSPI => 1,
            Self::BESI0 => 1,
            Self::BESI1 => 1,
            Self::ERF => 1,
            Self::ERFC => 1,
            Self::ERFCI => 1,
            Self::ERFCX => 1,
            Self::ERFI => 1,
            Self::EXP => 1,
            Self::EXP10 => 1,
            Self::EXP2 => 1,
            Self::EXPM1 => 1,
            Self::FABS => 1,
            Self::FDIM => 1,
            Self::FLOOR => 1,
            Self::FMA => 1,
            Self::FMAX => 1,
            Self::FMIN => 1,
            Self::FMOD => 1,
            Self::FREXP => 1,
            Self::HYPOT => 1,
            Self::ILOGB => 1,
            Self::ISFIN => 1,
            Self::ISINF => 1,
            Self::ISNAN => 1,
            Self::BESJ0 => 1,
            Self::BESJ1 => 1,
            Self::BESJN => 1,
            Self::LDEXP => 1,
            Self::LGAMMA => 1,
            Self::LLRINT => 1,
            Self::LLROUND => 1,
            Self::LOG => 1,
            Self::LOG10 => 1,
            Self::LOG1P => 1,
            Self::LOG2 => 1,
            Self::LOGB => 1,
            Self::LRINT => 1,
            Self::LROUND => 1,
            Self::MAX => 1,
            Self::MIN => 1,
            Self::MODF => 1,
            Self::NAN => -1,
            Self::NEARINT => -1,
            Self::NXTAFT => 1,
            Self::NORM => -1,
            Self::NORM3D => -1,
            Self::NORM4D => -1,
            Self::NORMCDF => -1,
            Self::NORMCDFINV => -1,
            Self::POW => 1,
            Self::RCBRT => 1,
            Self::REM => 1,
            Self::REMQUO => 1,
            Self::RHYPOT => 1,
            Self::RINT => 1,
            Self::RNORM => -1,
            Self::RNORM3D => -1,
            Self::RNORM4D => -1,
            Self::ROUND => 1,
            Self::RSQRT => 1,
            Self::SCALBLN => 1,
            Self::SCALBN => 1,
            Self::SGNBIT => 1,
            Self::SIN => 1,
            Self::SINH => 1,
            Self::SINPI => 1,
            Self::SQRT => 1,
            Self::TAN => 1,
            Self::TANH => 1,
            Self::TGAMMA => 1,
            Self::TRUNC => 1,
            Self::BESY0 => 1,
            Self::BESY1 => 1,
            Self::BESYN => 1,
            Self::PRINTC => 0,
            Self::PRINTCT => 0,
            Self::PRINTFF => 0,
            Self::PRINTFFT => 0,
            Self::LDPC => 1,
            Self::LDTID => 1,
            Self::LDNXPTR => 1,
            Self::LDSTK_PTR => 1,
            Self::RCSTK_PTR => 0,
            Self::LDNT => 1,
            Self::LDNX => 1,
            Self::RCNX => 0,
            Self::LDUSPTR => 1,
            Self::LONGLONGTODOUBLE => 1,
            Self::DOUBLETOLONGLONG => 1,
        }
    }

    /// The name of this operation as a sequence of characters.
    pub fn name_chars(&self) -> (r: Vec<char>)
        ensures
            r@ == self.spec_name(),
    {
        match self {
            Self::NULL => vec!['N', 'U', 'L', 'L'],
            Self::STK_READ => vec!['S', 'T', 'K', '_', 'R', 'E', 'A', 'D'],
            Self::STK_WRITE => vec!['S', 'T', 'K', '_', 'W', 'R', 'I', 'T', 'E'],
            Self::ADD => vec!['A', 'D', 'D'],
            Self::SUB => vec!['S', 'U', 'B'],
            Self::MUL => vec!['M', 'U', 'L'],
            Self::DIV => vec!['D', 'I', 'V'],
            Self::AND => vec!['A', 'N', 'D'],
            Self::NAND => vec!['N', 'A', 'N', 'D'],
            Self::OR => vec!['O', 'R'],
            Self::NOR => vec!['N', 'O', 'R'],
            Self::XOR => vec!['X', 'O', 'R'],
            Self::NOT => vec!['N', 'O', 'T'],
            Self::INC => vec!['I', 'N', 'C'],
            Self::DEC => vec!['D', 'E', 'C'],
            Self::SWAP => vec!['S', 'W', 'A', 'P'],
            Self::DUP => vec!['D', 'U', 'P'],
            Self::OVER => vec!['O', 'V', 'E', 'R'],
            Self::DROP => vec!['D', 'R', 'O', 'P'],
            Self::LSHIFT => vec!['L', 'S', 'H', 'I', 'F', 'T'],
            Self::RSHIFT => vec!['R', 'S', 'H', 'I', 'F', 'T'],
            Self::NEGATE => vec!['N', 'E', 'G', 'A', 'T', 'E'],
            Self::MALLOC => vec!['M', 'A', 'L', 'L', 'O', 'C'],
            Self::FREE => vec!['F', 'R', 'E', 'E'],
            Self::MEMCPY => vec!['M', 'E', 'M', 'C', 'P', 'Y'],
            Self::MEMSET => vec!['M', 'E', 'M', 'S', 'E', 'T'],
            Self::READ => vec!['R', 'E', 'A', 'D'],
            Self::WRITE => vec!['W', 'R', 'I', 'T', 'E'],
            Self::ADD_PTR => vec!['A', 'D', 'D', '_', 'P', 'T', 'R'],
            Self::SUB_PTR => vec!['S', 'U', 'B', '_', 'P', 'T', 'R'],
            Self::TERNARY => vec!['T', 'E', 'R', 'N', 'A', 'R', 'Y'],
            Self::EQ => vec!['E', 'Q'],
            Self::GT => vec!['G', 'T'],
            Self::GTEQ => vec!['G', 'T', 'E', 'Q'],
            Self::LT => vec!['L', 'T'],
            Self::LTEQ => vec!['L', 'T', 'E', 'Q'],
            Self::NEQ => vec!['N', 'E', 'Q'],
            Self::PTR_DEREF => vec!['P', 'T', 'R', '_', 'D', 'E', 'R', 'E', 'F'],
            Self::ACOS => vec!['A', 'C', 'O', 'S'],
            Self::ACOSH => vec!['A', 'C', 'O', 'S', 'H'],
            Self::ASIN => vec!['A', 'S', 'I', 'N'],
            Self::ASINH => vec!['A', 'S', 'I', 'N', 'H'],
            Self::ATAN => vec!['A', 'T', 'A', 'N'],
            Self::ATAN2 => vec!['A', 'T', 'A', 'N', '2'],
            Self::ATANH => vec!['A', 'T', 'A', 'N', 'H'],
            Self::CBRT => vec!['C', 'B', 'R', 'T'],
            Self::CEIL => vec!['C', 'E', 'I', 'L'],
            Self::CPYSGN => vec!['C', 'P', 'Y', 'S', 'G', 'N'],
            Self::COS => vec!['C', 'O', 'S'],
            Self::COSH => vec!['C', 'O', 'S', 'H'],
            Self::COSPI => vec!['C', 'O', 'S', 'P', 'I'],
            Self::BESI0 => vec!['B', 'E', 'S', 'I', '0'],
            Self::BESI1 => vec!['B', 'E', 'S', 'I', '1'],
            Self::ERF => vec!['E', 'R', 'F'],
            Self::ERFC => vec!['E', 'R', 'F', 'C'],
            Self::ERFCI => vec!['E', 'R', 'F', 'C', 'I'],
            Self::ERFCX => vec!['E', 'R', 'F', 'C', 'X'],
            Self::ERFI => vec!['E', 'R', 'F', 'I'],
            Self::EXP => vec!['E', 'X', 'P'],
            Self::EXP10 => vec!['E', 'X', 'P', '1', '0'],
            Self::EXP2 => vec!['E', 'X', 'P', '2'],
            Self::EXPM1 => vec!['E', 'X', 'P', 'M', '1'],
            Self::FABS => vec!['F', 'A', 'B', 'S'],
            Self::FDIM => vec!['F', 'D', 'I', 'M'],
            Self::FLOOR => vec!['F', 'L', 'O', 'O', 'R'],
            Self::FMA => vec!['F', 'M', 'A'],
            Self::FMAX => vec!['F', 'M', 'A', 'X'],
            Self::FMIN => vec!['F', 'M', 'I', 'N'],
            Self::FMOD => vec!['F', 'M', 'O', 'D'],
            Self::FREXP => vec!['F', 'R', 'E', 'X', 'P'],
            Self::HYPOT => vec!['H', 'Y', 'P', 'O', 'T'],
            Self::ILOGB => vec!['I', 'L', 'O', 'G', 'B'],
            Self::ISFIN => vec!['I', 'S', 'F', 'I', 'N'],
            Self::ISINF => vec!['I', 'S', 'I', 'N', 'F'],
            Self::ISNAN => vec!['I', 'S', 'N', 'A', 'N'],
            Self::BESJ0 => vec!['B', 'E', 'S', 'J', '0'],
            Self::BESJ1 => vec!['B', 'E', 'S', 'J', '1'],
            Self::BESJN => vec!['B', 'E', 'S', 'J', 'N'],
            Self::LDEXP => vec!['L', 'D', 'E', 'X', 'P'],
            Self::LGAMMA => vec!['L', 'G', 'A', 'M', 'M', 'A'],
            Self::LLRINT => vec!['L', 'L', 'R', 'I', 'N', 'T'],
            Self::LLROUND => vec!['L', 'L', 'R', 'O', 'U', 'N', 'D'],
            Self::LOG => vec!['L', 'O', 'G'],
            Self::LOG10 => vec!['L', 'O', 'G', '1', '0'],
            Self::LOG1P => vec!['L', 'O', 'G', '1', 'P'],
            Self::LOG2 => vec!['L', 'O', 'G', '2'],
            Self::LOGB => vec!['L', 'O', 'G', 'B'],
            Self::LRINT => vec!['L', 'R', 'I', 'N', 'T'],
            Self::LROUND => vec!['L', 'R', 'O', 'U', 'N', 'D'],
            Self::MAX => vec!['M', 'A', 'X'],
            Self::MIN => vec!['M', 'I', 'N'],
            Self::MODF => vec!['M', 'O', 'D', 'F'],
            Self::NAN => vec!['N', 'A', 'N'],
            Self::NEARINT => vec!['N', 'E', 'A', 'R', 'I', 'N', 'T'],
            Self::NXTAFT => vec!['N', 'X', 'T', 'A', 'F', 'T'],
            Self::NORM => vec!['N', 'O', 'R', 'M'],
            Self::NORM3D => vec!['N', 'O', 'R', 'M', '3', 'D'],
            Self::NORM4D => vec!['N', 'O', 'R', 'M', '4', 'D'],
            Self::NORMCDF => vec!['N', 'O', 'R', 'M', 'C', 'D', 'F'],
            Self::NORMCDFINV => vec!['N', 'O', 'R', 'M', 'C', 'D', 'F', 'I', 'N', 'V'],
            Self::POW => vec!['P', 'O', 'W'],
            Self::RCBRT => vec!['R', 'C', 'B', 'R', 'T'],
            Self::REM => vec!['R', 'E', 'M'],
            Self::REMQUO => vec!['R', 'E', 'M', 'Q', 'U', 'O'],
            Self::RHYPOT => vec!['R', 'H', 'Y', 'P', 'O', 'T'],
            Self::RINT => vec!['R', 'I', 'N', 'T'],
            Self::RNORM => vec!['R', 'N', 'O', 'R', 'M'],
            Self::RNORM3D => vec!['R', 'N', 'O', 'R', 'M', '3', 'D'],
            Self::RNORM4D => vec!['R', 'N', 'O', 'R', 'M', '4', 'D'],
            Self::ROUND => vec!['R', 'O', 'U', 'N', 'D'],
            Self::RSQRT => vec!['R', 'S', 'Q', 'R', 'T'],
            Self::SCALBLN => vec!['S', 'C', 'A', 'L', 'B', 'L', 'N'],
            Self::SCALBN => vec!['S', 'C', 'A', 'L', 'B', 'N'],
            Self::SGNBIT => vec!['S', 'G', 'N', 'B', 'I', 'T'],
            Self::SIN => vec!['S', 'I', 'N'],
            Self::SINH => vec!['S', 'I', 'N', 'H'],
            Self::SINPI => vec!['S', 'I', 'N', 'P', 'I'],
            Self::SQRT => vec!['S', 'Q', 'R', 'T'],
            Self::TAN => vec!['T', 'A', 'N'],
            Self::TANH => vec!['T', 'A', 'N', 'H'],
            Self::TGAMMA => vec!['T', 'G', 'A', 'M', 'M', 'A'],
            Self::TRUNC => vec!['T', 'R', 'U', 'N', 'C'],
            Self::BESY0 => vec!['B', 'E', 'S', 'Y', '0'],
            Self::BESY1 => vec!['B', 'E', 'S', 'Y', '1'],
            Self::BESYN => vec!['B', 'E', 'S', 'Y', 'N'],
            Self::PRINTC => vec!['P', 'R', 'I', 'N', 'T', 'C'],
            Self::PRINTCT => vec!['P', 'R', 'I', 'N', 'T', 'C', 'T'],
            Self::PRINTFF => vec!['P', 'R', 'I', 'N', 'T', 'F', 'F'],
            Self::PRINTFFT => vec!['P', 'R', 'I', 'N', 'T', 'F', 'F', 'T'],
            Self::LDPC => vec!['L', 'D', 'P', 'C'],
            Self::LDTID => vec!['L', 'D', 'T', 'I', 'D'],
            Self::LDNXPTR => vec!['L', 'D', 'N', 'X', 'P', 'T', 'R'],
            Self::LDSTK_PTR => vec!['L', 'D', 'S', 'T', 'K', '_', 'P', 'T', 'R'],
            Self::RCSTK_PTR => vec!['R', 'C', 'S', 'T', 'K', '_', 'P', 'T', 'R'],
            Self::LDNT => vec!['L', 'D', 'N', 'T'],
            Self::LDNX => vec!['L', 'D', 'N', 'X'],
            Self::RCNX => vec!['R', 'C', 'N', 'X'],
            Self::LDUSPTR => vec!['L', 'D', 'U', 'S', 'P', 'T', 'R'],
            Self::LONGLONGTODOUBLE => vec!['L', 'O', 'N', 'G', 'L', 'O', 'N', 'G', 'T', 'O', 'D', 'O', 'U', 'B', 'L', 'E'],
            Self::DOUBLETOLONGLONG => vec!['D', 'O', 'U', 'B', 'L', 'E', 'T', 'O', 'L', 'O', 'N', 'G', 'L', 'O', 'N', 'G'],
        }
    }

}

/// What parsing an operation name gives: the first operation, in opcode
/// order, with that name.
pub open spec fn spec_operator_named(name: Seq<char>) -> Result<BarracudaOperators, ()> {
    match operation_named_from(name, 0) {
        Some(op) => Ok(BarracudaOperators::FIXED(op)),
        None => Err(()),
    }
}

/// The first operation, in opcode order from `code` on, named `name`.
pub open spec fn operation_named_from(name: Seq<char>, code: u32) -> Option<FixedBarracudaOperators>
    decreases MAX_FIXED_OPCODE + 1 - code,
{
    if code > MAX_FIXED_OPCODE {
        None
    } else {
        match FixedBarracudaOperators::spec_from_opcode(code) {
            Some(op) => if op.spec_name() == name {
                Some(op)
            } else {
                operation_named_from(name, (code + 1) as u32)
            },
            None => operation_named_from(name, (code + 1) as u32),
        }
    }
}

impl FixedBarracudaOperators {
    /// Parses an operation from its exact name (for instance `"SUB_PTR"`).
    pub fn from_name(s: &str) -> (r: Option<Self>)
        ensures
            r == operation_named_from(s@, 0),
            r matches Some(op) ==> op.spec_name() == s@,
            r is None ==> forall|op: Self| #[trigger] op.spec_name() != s@,
    {
        let chars = str_chars(s);
        let mut code: u32 = 0;
        while code <= MAX_FIXED_OPCODE
            invariant
                chars@ == s@,
                operation_named_from(s@, code) == operation_named_from(s@, 0),
                forall|c: u32|
                    c < code ==> (#[trigger] Self::spec_from_opcode(c) matches Some(op) ==> op.spec_name() != s@),
            decreases MAX_FIXED_OPCODE + 1 - code,
        {
            if let Some(op) = Self::from(code) {
                let name = op.name_chars();
                if chars_equal(&name, &chars) {
                    return Some(op);
                }
            }
            code = code + 1;
        }
        proof {
            assert forall|op: Self| #[trigger] op.spec_name() != s@ by {
                lemma_opcode_roundtrip(op);
                assert(Self::spec_from_opcode(op.spec_opcode()) matches Some(o) ==> o.spec_name() != s@);
            }
        }
        None
    }
}

/// Every operation is recovered from its own opcode, and every opcode
/// lies in the range that `from_name` scans.
pub proof fn lemma_opcode_roundtrip(op: FixedBarracudaOperators)
    ensures
        FixedBarracudaOperators::spec_from_opcode(op.spec_opcode()) == Some(op),
        op.spec_opcode() <= MAX_FIXED_OPCODE,
{
    reveal(FixedBarracudaOperators::spec_from_opcode);
}

/// An opcode that denotes an operation is that operation's opcode.
pub proof fn lemma_opcode_unique(code: u32)
    ensures
        FixedBarracudaOperators::spec_from_opcode(code) matches Some(op) ==> op.spec_opcode() == code,
{
    reveal(FixedBarracudaOperators::spec_from_opcode);
}

/// The operation type of the VM: at present only the fixed operations.
#[derive(Debug, Clone, Copy, PartialEq, Eq, Structural)]
pub enum BarracudaOperators {
    FIXED(FixedBarracudaOperators),
}

impl BarracudaOperators {
    /// The opcode of an operation.
    pub open spec fn spec_opcode(self) -> u32 {
        match self {
            BarracudaOperators::FIXED(op) => op.spec_opcode(),
        }
    }

    /// Number of stack values the operation takes; -1 when unknown.
    pub open spec fn spec_consume(self) -> i8 {
        match self {
            BarracudaOperators::FIXED(op) => op.spec_consume(),
        }
    }

    /// Number of stack values the operation leaves; -1 when unknown.
    pub open spec fn spec_produce(self) -> i8 {
        match self {
            BarracudaOperators::FIXED(op) => op.spec_produce(),
        }
    }

    /// The textual name of the operation.
    pub open spec fn spec_name(self) -> Seq<char> {
        match self {
            BarracudaOperators::FIXED(op) => op.spec_name(),
        }
    }

    /// Converts an opcode value into an operation.
    /// Returns `None` if no operation has that opcode.
    pub fn from(opcode: u32) -> (r: Option<Self>)
        ensures
            r == (match FixedBarracudaOperators::spec_from_opcode(opcode) {
                Some(op) => Some(BarracudaOperators::FIXED(op)),
                None => None::<BarracudaOperators>,
            }),
    {
        if let Some(op) = FixedBarracudaOperators::from(opcode) {
            return Some(Self::FIXED(op));
        }
        None
    }

    /// The opcode of this operation.
    pub fn as_u32(&self) -> (r: u32)
        ensures
            r == self.spec_opcode(),
    {
        match self {
            BarracudaOperators::FIXED(op) => op.as_u32(),
        }
    }

    /// Number of arguments the operation takes from the stack (-1 if unknown).
    pub fn consume(&self) -> (r: i8)
        ensures
            r == self.spec_consume(),
    {
        match self {
            BarracudaOperators::FIXED(op) => op.consume(),
        }
    }

    /// Number of outputs the operation adds to the stack (-1 if unknown).
    pub fn produce(&self) -> (r: i8)
        ensures
            r == self.spec_produce(),
    {
        match self {
            BarracudaOperators::FIXED(op) => op.produce(),
        }
    }

    /// Parses an operation from its name. Errs when no operation has that name.
    pub fn from_str(s: &str) -> (r: Result<Self, ()>)
        ensures
            r == spec_operator_named(s@),
            r matches Ok(op) ==> op.spec_name() == s@,
            r is Err ==> forall|op: BarracudaOperators| #[trigger] op.spec_name() != s@,
    {
        match FixedBarracudaOperators::from_name(s) {
            Some(op) => Ok(BarracudaOperators::FIXED(op)),
            None => {
                assert forall|op: BarracudaOperators| #[trigger] op.spec_name() != s@ by {
                    let BarracudaOperators::FIXED(f) = op;
                    assert(f.spec_name() != s@);
                }
                Err(())
            },
        }
    }

    /// The name of the operation, as it is written in `.bct` text.
    pub fn to_text(&self) -> (r: String)
        ensures
            r@ == self.spec_name(),
    {
        match self {
            BarracudaOperators::FIXED(op) => {
                let chars = op.name_chars();
                chars_to_string(&chars)
            },
        }
    }
}

/// Decoding an operation's opcode gives back the operation.
pub proof fn lemma_operator_opcode_roundtrip(op: BarracudaOperators)
    ensures
        (match FixedBarracudaOperators::spec_from_opcode(op.spec_opcode()) {
            Some(f) => Some(BarracudaOperators::FIXED(f)),
            None => None::<BarracudaOperators>,
        }) == Some(op),
{
    let BarracudaOperators::FIXED(f) = op;
    lemma_opcode_roundtrip(f);
}

/// Operation names are non-empty and start with an uppercase letter.
pub proof fn lemma_operation_name_starts_with_letter(op: FixedBarracudaOperators)
    ensures
        op.spec_name().len() > 0,
        'A' <= op.spec_name()[0] <= 'Z',
{
}

/// No operation is named by an empty text or by a text that does not start
/// with an uppercase letter.
pub proof fn lemma_no_operation_named(name: Seq<char>, code: u32)
    requires
        name.len() == 0 || !('A' <= name[0] <= 'Z'),
    ensures
        operation_named_from(name, code) is None,
    decreases MAX_FIXED_OPCODE + 1 - code,
{
    if code <= MAX_FIXED_OPCODE {
        if let Some(op) = FixedBarracudaOperators::spec_from_opcode(code) {
            lemma_operation_name_starts_with_letter(op);
        }
        lemma_no_operation_named(name, (code + 1) as u32);
    }
}


/// Looking up the name of an operation from any opcode up to its own finds
/// an operation of that name, no later than it in opcode order.
pub proof fn lemma_operation_name_found(op: FixedBarracudaOperators, code: u32)
    requires
        code <= op.spec_opcode(),
    ensures
        operation_named_from(op.spec_name(), code) matches Some(o) && o.spec_name() == op.spec_name()
            && o.spec_opcode() <= op.spec_opcode(),
    decreases op.spec_opcode() - code,
{
    lemma_opcode_roundtrip(op);
    lemma_opcode_unique(code);
    if code < op.spec_opcode() {
        match FixedBarracudaOperators::spec_from_opcode(code) {
            Some(x) => if x.spec_name() != op.spec_name() {
                lemma_operation_name_found(op, (code + 1) as u32);
            },
            None => {
                lemma_operation_name_found(op, (code + 1) as u32);
            },
        }
    }
}

} // verus!
