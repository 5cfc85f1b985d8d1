//! The operations of the MathStack virtual machine, each with its opcode.
use vstd::prelude::*;

verus! {

/// Every operation of the MathStack VM. The opcode of each is given by
/// `as_u32`, and `from_u32` decodes an opcode read from program code.
#[allow(non_camel_case_types)]
#[derive(Debug, Clone, Copy, PartialEq, Eq, Structural)]
pub enum MathStackOperators {
    NULL,
    ADD,
    SUB,
    MUL,
    DIV,
    AND,
    NAND,
    OR,
    NOR,
    XOR,
    NOT,
    INC,
    DEC,
    SWAP,
    DUP,
    OVER,
    DROP,
    LSHIFT,
    RSHIFT,
    MALLOC,
    FREE,
    MEMCPY,
    MEMSET,
    READ,
    WRITE,
    ADD_PTR,
    SUB_PTR,
    TERNARY,
    ACOS,
    ACOSH,
    ASIN,
    ASINH,
    ATAN,
    ATAN2,
    ATANH,
    CBRT,
    CEIL,
    CPYSGN,
    COS,
    COSH,
    COSPI,
    BESI0,
    BESI1,
    ERF,
    ERFC,
    ERFCI,
    ERFCX,
    ERFI,
    EXP,
    EXP10,
    EXP2,
    EXPM1,
    FABS,
    FDIM,
    FLOOR,
    FMA,
    FMAX,
    FMIN,
    FMOD,
    FREXP,
    HYPOT,
    ILOGB,
    ISFIN,
    ISINF,
    ISNAN,
    BESJ0,
    BESJ1,
    BESJN,
    LDEXP,
    LGAMMA,
    LLRINT,
    LLROUND,
    LOG,
    LOG10,
    LOG1P,
    LOG2,
    LOGB,
    LRINT,
    LROUND,
    MAX,
    MIN,
    MODF,
    NAN,
    NEARINT,
    NXTAFT,
    NORM,
    NORM3D,
    NORM4D,
    NORMCDF,
    NORMCDFINV,
    POW,
    RCBRT,
    REM,
    REMQUO,
    RHYPOT,
    RINT,
    RNORM,
    RNORM3D,
    RNORM4D,
    ROUND,
    RSQRT,
    SCALBLN,
    SCALBN,
    SGNBIT,
    SIN,
    SINH,
    SINPI,
    SQRT,
    TAN,
    TANH,
    TGAMMA,
    TRUNC,
    BESY0,
    BESY1,
    BESYN,
    PRINTC,
    PRINTCT,
    PRINTFF,
    PRINTFFT,
    LDA,
    LDB,
    LDC,
    LDD,
    LDE,
    LDF,
    LDG,
    LDH,
    LDI,
    LDJ,
    LDK,
    LDL,
    LDM,
    LDN,
    LDO,
    LDP,
    LDQ,
    LDR,
    LDS,
    LDT,
    LDU,
    LDV,
    LDW,
    LDX,
    LDY,
    LDZ,
    LDDX,
    LDDY,
    LDDZ,
    LDDT,
    LDA0,
    LDB0,
    LDC0,
    LDD0,
    LDE0,
    LDF0,
    LDG0,
    LDH0,
    LDI0,
    LDJ0,
    LDK0,
    LDL0,
    LDM0,
    LDN0,
    LDO0,
    LDP0,
    LDQ0,
    LDR0,
    LDS0,
    LDT0,
    LDU0,
    LDV0,
    LDW0,
    LDX0,
    LDY0,
    LDZ0,
    LDPC,
    LDTID,
    RCA,
    RCB,
    RCC,
    RCD,
    RCE,
    RCF,
    RCG,
    RCH,
    RCI,
    RCJ,
    RCK,
    RCL,
    RCM,
    RCN,
    RCO,
    RCP,
    RCQ,
    RCR,
    RCS,
    RCT,
    RCU,
    RCV,
    RCW,
    RCX,
    RCY,
    RCZ,
    RCDX,
    RCDY,
    RCDZ,
    RCDT,
}

impl MathStackOperators {
    /// The opcode of an operation.
    pub open spec fn spec_opcode(self) -> u32 {
        match self {
            Self::NULL => 0x0000,
            Self::ADD => 0x03CC,
            Self::SUB => 0x03CD,
            Self::MUL => 0x03CE,
            Self::DIV => 0x03CF,
            Self::AND => 0x03D0,
            Self::NAND => 0x03D1,
            Self::OR => 0x03D2,
            Self::NOR => 0x03D3,
            Self::XOR => 0x03D4,
            Self::NOT => 0x03D5,
            Self::INC => 0x03D6,
            Self::DEC => 0x03D7,
            Self::SWAP => 0x03D8,
            Self::DUP => 0x03D9,
            Self::OVER => 0x03DA,
            Self::DROP => 0x03DB,
            Self::LSHIFT => 0x03DC,
            Self::RSHIFT => 0x03DD,
            Self::MALLOC => 0x03DE,
            Self::FREE => 0x03DF,
            Self::MEMCPY => 0x03E0,
            Self::MEMSET => 0x03E1,
            Self::READ => 0x03E2,
            Self::WRITE => 0x03E3,
            Self::ADD_PTR => 0x03E4,
            Self::SUB_PTR => 0x03E5,
            Self::TERNARY => 0x03E6,
            Self::ACOS => 0x0798,
            Self::ACOSH => 0x0799,
            Self::ASIN => 0x079A,
            Self::ASINH => 0x079B,
            Self::ATAN => 0x079C,
            Self::ATAN2 => 0x079D,
            Self::ATANH => 0x079E,
            Self::CBRT => 0x079F,
            Self::CEIL => 0x07A0,
            Self::CPYSGN => 0x07A1,
            Self::COS => 0x07A2,
            Self::COSH => 0x07A3,
            Self::COSPI => 0x07A4,
            Self::BESI0 => 0x07A5,
            Self::BESI1 => 0x07A6,
            Self::ERF => 0x07A7,
            Self::ERFC => 0x07A8,
            Self::ERFCI => 0x07A9,
            Self::ERFCX => 0x07AA,
            Self::ERFI => 0x07AB,
            Self::EXP => 0x07AC,
            Self::EXP10 => 0x07AD,
            Self::EXP2 => 0x07AE,
            Self::EXPM1 => 0x07AF,
            Self::FABS => 0x07B0,
            Self::FDIM => 0x07B1,
            Self::FLOOR => 0x07B2,
            Self::FMA => 0x07B3,
            Self::FMAX => 0x07B4,
            Self::FMIN => 0x07B5,
            Self::FMOD => 0x07B6,
            Self::FREXP => 0x07B7,
            Self::HYPOT => 0x07B8,
            Self::ILOGB => 0x07B9,
            Self::ISFIN => 0x07BA,
            Self::ISINF => 0x07BB,
            Self::ISNAN => 0x07BC,
            Self::BESJ0 => 0x07BD,
            Self::BESJ1 => 0x07BE,
            Self::BESJN => 0x07BF,
            Self::LDEXP => 0x07C0,
            Self::LGAMMA => 0x07C1,
            Self::LLRINT => 0x07C2,
            Self::LLROUND => 0x07C3,
            Self::LOG => 0x07C4,
            Self::LOG10 => 0x07C5,
            Self::LOG1P => 0x07C6,
            Self::LOG2 => 0x07C7,
            Self::LOGB => 0x07C8,
            Self::LRINT => 0x07C9,
            Self::LROUND => 0x07CA,
            Self::MAX => 0x07CB,
            Self::MIN => 0x07CC,
            Self::MODF => 0x07CD,
            Self::NAN => 0x07CE,
            Self::NEARINT => 0x07CF,
            Self::NXTAFT => 0x07D0,
            Self::NORM => 0x07D1,
            Self::NORM3D => 0x07D2,
            Self::NORM4D => 0x07D3,
            Self::NORMCDF => 0x07D4,
            Self::NORMCDFINV => 0x07D5,
            Self::POW => 0x07D6,
            Self::RCBRT => 0x07D7,
            Self::REM => 0x07D8,
            Self::REMQUO => 0x07D9,
            Self::RHYPOT => 0x07DA,
            Self::RINT => 0x07DB,
            Self::RNORM => 0x07DC,
            Self::RNORM3D => 0x07DD,
            Self::RNORM4D => 0x07DE,
            Self::ROUND => 0x07DF,
            Self::RSQRT => 0x07E0,
            Self::SCALBLN => 0x07E1,
            Self::SCALBN => 0x07E2,
            Self::SGNBIT => 0x07E3,
            Self::SIN => 0x07E4,
            Self::SINH => 0x07E5,
            Self::SINPI => 0x07E6,
            Self::SQRT => 0x07E7,
            Self::TAN => 0x07E8,
            Self::TANH => 0x07E9,
            Self::TGAMMA => 0x07EA,
            Self::TRUNC => 0x07EB,
            Self::BESY0 => 0x07EC,
            Self::BESY1 => 0x07ED,
            Self::BESYN => 0x07EE,
            Self::PRINTC => 0x0B64,
            Self::PRINTCT => 0x0B65,
            Self::PRINTFF => 0x0B66,
            Self::PRINTFFT => 0x0B67,
            Self::LDA => 0x12FC,
            Self::LDB => 0x12FD,
            Self::LDC => 0x12FE,
            Self::LDD => 0x12FF,
            Self::LDE => 0x1300,
            Self::LDF => 0x1301,
            Self::LDG => 0x1302,
            Self::LDH => 0x1303,
            Self::LDI => 0x1304,
            Self::LDJ => 0x1305,
            Self::LDK => 0x1306,
            Self::LDL => 0x1307,
            Self::LDM => 0x1308,
            Self::LDN => 0x1309,
            Self::LDO => 0x130A,
            Self::LDP => 0x130B,
            Self::LDQ => 0x130C,
            Self::LDR => 0x130D,
            Self::LDS => 0x130E,
            Self::LDT => 0x130F,
            Self::LDU => 0x1310,
            Self::LDV => 0x1311,
            Self::LDW => 0x1312,
            Self::LDX => 0x1313,
            Self::LDY => 0x1314,
            Self::LDZ => 0x1315,
            Self::LDDX => 0x1316,
            Self::LDDY => 0x1317,
            Self::LDDZ => 0x1318,
            Self::LDDT => 0x1319,
            Self::LDA0 => 0x131A,
            Self::LDB0 => 0x131B,
            Self::LDC0 => 0x131C,
            Self::LDD0 => 0x131D,
            Self::LDE0 => 0x131E,
            Self::LDF0 => 0x131F,
            Self::LDG0 => 0x1320,
            Self::LDH0 => 0x1321,
            Self::LDI0 => 0x1322,
            Self::LDJ0 => 0x1323,
            Self::LDK0 => 0x1324,
            Self::LDL0 => 0x1325,
            Self::LDM0 => 0x1326,
            Self::LDN0 => 0x1327,
            Self::LDO0 => 0x1328,
            Self::LDP0 => 0x1329,
            Self::LDQ0 => 0x132A,
            Self::LDR0 => 0x132B,
            Self::LDS0 => 0x132C,
            Self::LDT0 => 0x132D,
            Self::LDU0 => 0x132E,
            Self::LDV0 => 0x132F,
            Self::LDW0 => 0x1330,
            Self::LDX0 => 0x1331,
            Self::LDY0 => 0x1332,
            Self::LDZ0 => 0x1333,
            Self::LDPC => 0x1334,
            Self::LDTID => 0x1335,
            Self::RCA => 0x16C8,
            Self::RCB => 0x16C9,
            Self::RCC => 0x16CA,
            Self::RCD => 0x16CB,
            Self::RCE => 0x16CC,
            Self::RCF => 0x16CD,
            Self::RCG => 0x16CE,
            Self::RCH => 0x16CF,
            Self::RCI => 0x16D0,
            Self::RCJ => 0x16D1,
            Self::RCK => 0x16D2,
            Self::RCL => 0x16D3,
            Self::RCM => 0x16D4,
            Self::RCN => 0x16D5,
            Self::RCO => 0x16D6,
            Self::RCP => 0x16D7,
            Self::RCQ => 0x16D8,
            Self::RCR => 0x16D9,
            Self::RCS => 0x16DA,
            Self::RCT => 0x16DB,
            Self::RCU => 0x16DC,
            Self::RCV => 0x16DD,
            Self::RCW => 0x16DE,
            Self::RCX => 0x16DF,
            Self::RCY => 0x16E0,
            Self::RCZ => 0x16E1,
            Self::RCDX => 0x16E2,
            Self::RCDY => 0x16E3,
            Self::RCDZ => 0x16E4,
            Self::RCDT => 0x16E5,
        }
    }

    /// The name of an operation.
    pub open spec fn spec_name(self) -> Seq<char> {
        match self {
            Self::NULL => seq!['N', 'U', 'L', 'L'],
            Self::ADD => seq!['A', 'D', 'D'],
            Self::SUB => seq!['S', 'U', 'B'],
            Self::MUL => seq!['M', 'U', 'L'],
            Self::DIV => seq!['D', 'I', 'V'],
            Self::AND => seq!['A', 'N', 'D'],
            Self::NAND => seq!['N', 'A', 'N', 'D'],
            Self::OR => seq!['O', 'R'],
            Self::NOR => seq!['N', 'O', 'R'],
            Self::XOR => seq!['X', 'O', 'R'],
            Self::NOT => seq!['N', 'O', 'T'],
            Self::INC => seq!['I', 'N', 'C'],
            Self::DEC => seq!['D', 'E', 'C'],
            Self::SWAP => seq!['S', 'W', 'A', 'P'],
            Self::DUP => seq!['D', 'U', 'P'],
            Self::OVER => seq!['O', 'V', 'E', 'R'],
            Self::DROP => seq!['D', 'R', 'O', 'P'],
            Self::LSHIFT => seq!['L', 'S', 'H', 'I', 'F', 'T'],
            Self::RSHIFT => seq!['R', 'S', 'H', 'I', 'F', 'T'],
            Self::MALLOC => seq!['M', 'A', 'L', 'L', 'O', 'C'],
            Self::FREE => seq!['F', 'R', 'E', 'E'],
            Self::MEMCPY => seq!['M', 'E', 'M', 'C', 'P', 'Y'],
            Self::MEMSET => seq!['M', 'E', 'M', 'S', 'E', 'T'],
            Self::READ => seq!['R', 'E', 'A', 'D'],
            Self::WRITE => seq!['W', 'R', 'I', 'T', 'E'],
            Self::ADD_PTR => seq!['A', 'D', 'D', '_', 'P', 'T', 'R'],
            Self::SUB_PTR => seq!['S', 'U', 'B', '_', 'P', 'T', 'R'],
            Self::TERNARY => seq!['T', 'E', 'R', 'N', 'A', 'R', 'Y'],
            Self::ACOS => seq!['A', 'C', 'O', 'S'],
            Self::ACOSH => seq!['A', 'C', 'O', 'S', 'H'],
            Self::ASIN => seq!['A', 'S', 'I', 'N'],
            Self::ASINH => seq!['A', 'S', 'I', 'N', 'H'],
            Self::ATAN => seq!['A', 'T', 'A', 'N'],
            Self::ATAN2 => seq!['A', 'T', 'A', 'N', '2'],
            Self::ATANH => seq!['A', 'T', 'A', 'N', 'H'],
            Self::CBRT => seq!['C', 'B', 'R', 'T'],
            Self::CEIL => seq!['C', 'E', 'I', 'L'],
            Self::CPYSGN => seq!['C', 'P', 'Y', 'S', 'G', 'N'],
            Self::COS => seq!['C', 'O', 'S'],
            Self::COSH => seq!['C', 'O', 'S', 'H'],
            Self::COSPI => seq!['C', 'O', 'S', 'P', 'I'],
            Self::BESI0 => seq!['B', 'E', 'S', 'I', '0'],
            Self::BESI1 => seq!['B', 'E', 'S', 'I', '1'],
            Self::ERF => seq!['E', 'R', 'F'],
            Self::ERFC => seq!['E', 'R', 'F', 'C'],
            Self::ERFCI => seq!['E', 'R', 'F', 'C', 'I'],
            Self::ERFCX => seq!['E', 'R', 'F', 'C', 'X'],
            Self::ERFI => seq!['E', 'R', 'F', 'I'],
            Self::EXP => seq!['E', 'X', 'P'],
            Self::EXP10 => seq!['E', 'X', 'P', '1', '0'],
            Self::EXP2 => seq!['E', 'X', 'P', '2'],
            Self::EXPM1 => seq!['E', 'X', 'P', 'M', '1'],
            Self::FABS => seq!['F', 'A', 'B', 'S'],
            Self::FDIM => seq!['F', 'D', 'I', 'M'],
            Self::FLOOR => seq!['F', 'L', 'O', 'O', 'R'],
            Self::FMA => seq!['F', 'M', 'A'],
            Self::FMAX => seq!['F', 'M', 'A', 'X'],
            Self::FMIN => seq!['F', 'M', 'I', 'N'],
            Self::FMOD => seq!['F', 'M', 'O', 'D'],
            Self::FREXP => seq!['F', 'R', 'E', 'X', 'P'],
            Self::HYPOT => seq!['H', 'Y', 'P', 'O', 'T'],
            Self::ILOGB => seq!['I', 'L', 'O', 'G', 'B'],
            Self::ISFIN => seq!['I', 'S', 'F', 'I', 'N'],
            Self::ISINF => seq!['I', 'S', 'I', 'N', 'F'],
            Self::ISNAN => seq!['I', 'S', 'N', 'A', 'N'],
            Self::BESJ0 => seq!['B', 'E', 'S', 'J', '0'],
            Self::BESJ1 => seq!['B', 'E', 'S', 'J', '1'],
            Self::BESJN => seq!['B', 'E', 'S', 'J', 'N'],
            Self::LDEXP => seq!['L', 'D', 'E', 'X', 'P'],
            Self::LGAMMA => seq!['L', 'G', 'A', 'M', 'M', 'A'],
            Self::LLRINT => seq!['L', 'L', 'R', 'I', 'N', 'T'],
            Self::LLROUND => seq!['L', 'L', 'R', 'O', 'U', 'N', 'D'],
            Self::LOG => seq!['L', 'O', 'G'],
            Self::LOG10 => seq!['L', 'O', 'G', '1', '0'],
            Self::LOG1P => seq!['L', 'O', 'G', '1', 'P'],
            Self::LOG2 => seq!['L', 'O', 'G', '2'],
            Self::LOGB => seq!['L', 'O', 'G', 'B'],
            Self::LRINT => seq!['L', 'R', 'I', 'N', 'T'],
            Self::LROUND => seq!['L', 'R', 'O', 'U', 'N', 'D'],
            Self::MAX => seq!['M', 'A', 'X'],
            Self::MIN => seq!['M', 'I', 'N'],
            Self::MODF => seq!['M', 'O', 'D', 'F'],
            Self::NAN => seq!['N', 'A', 'N'],
            Self::NEARINT => seq!['N', 'E', 'A', 'R', 'I', 'N', 'T'],
            Self::NXTAFT => seq!['N', 'X', 'T', 'A', 'F', 'T'],
            Self::NORM => seq!['N', 'O', 'R', 'M'],
            Self::NORM3D => seq!['N', 'O', 'R', 'M', '3', 'D'],
            Self::NORM4D => seq!['N', 'O', 'R', 'M', '4', 'D'],
            Self::NORMCDF => seq!['N', 'O', 'R', 'M', 'C', 'D', 'F'],
            Self::NORMCDFINV => seq!['N', 'O', 'R', 'M', 'C', 'D', 'F', 'I', 'N', 'V'],
            Self::POW => seq!['P', 'O', 'W'],
            Self::RCBRT => seq!['R', 'C', 'B', 'R', 'T'],
            Self::REM => seq!['R', 'E', 'M'],
            Self::REMQUO => seq!['R', 'E', 'M', 'Q', 'U', 'O'],
            Self::RHYPOT => seq!['R', 'H', 'Y', 'P', 'O', 'T'],
            Self::RINT => seq!['R', 'I', 'N', 'T'],
            Self::RNORM => seq!['R', 'N', 'O', 'R', 'M'],
            Self::RNORM3D => seq!['R', 'N', 'O', 'R', 'M', '3', 'D'],
            Self::RNORM4D => seq!['R', 'N', 'O', 'R', 'M', '4', 'D'],
            Self::ROUND => seq!['R', 'O', 'U', 'N', 'D'],
            Self::RSQRT => seq!['R', 'S', 'Q', 'R', 'T'],
            Self::SCALBLN => seq!['S', 'C', 'A', 'L', 'B', 'L', 'N'],
            Self::SCALBN => seq!['S', 'C', 'A', 'L', 'B', 'N'],
            Self::SGNBIT => seq!['S', 'G', 'N', 'B', 'I', 'T'],
            Self::SIN => seq!['S', 'I', 'N'],
            Self::SINH => seq!['S', 'I', 'N', 'H'],
            Self::SINPI => seq!['S', 'I', 'N', 'P', 'I'],
            Self::SQRT => seq!['S', 'Q', 'R', 'T'],
            Self::TAN => seq!['T', 'A', 'N'],
            Self::TANH => seq!['T', 'A', 'N', 'H'],
            Self::TGAMMA => seq!['T', 'G', 'A', 'M', 'M', 'A'],
            Self::TRUNC => seq!['T', 'R', 'U', 'N', 'C'],
            Self::BESY0 => seq!['B', 'E', 'S', 'Y', '0'],
            Self::BESY1 => seq!['B', 'E', 'S', 'Y', '1'],
            Self::BESYN => seq!['B', 'E', 'S', 'Y', 'N'],
            Self::PRINTC => seq!['P', 'R', 'I', 'N', 'T', 'C'],
            Self::PRINTCT => seq!['P', 'R', 'I', 'N', 'T', 'C', 'T'],
            Self::PRINTFF => seq!['P', 'R', 'I', 'N', 'T', 'F', 'F'],
            Self::PRINTFFT => seq!['P', 'R', 'I', 'N', 'T', 'F', 'F', 'T'],
            Self::LDA => seq!['L', 'D', 'A'],
            Self::LDB => seq!['L', 'D', 'B'],
            Self::LDC => seq!['L', 'D', 'C'],
            Self::LDD => seq!['L', 'D', 'D'],
            Self::LDE => seq!['L', 'D', 'E'],
            Self::LDF => seq!['L', 'D', 'F'],
            Self::LDG => seq!['L', 'D', 'G'],
            Self::LDH => seq!['L', 'D', 'H'],
            Self::LDI => seq!['L', 'D', 'I'],
            Self::LDJ => seq!['L', 'D', 'J'],
            Self::LDK => seq!['L', 'D', 'K'],
            Self::LDL => seq!['L', 'D', 'L'],
            Self::LDM => seq!['L', 'D', 'M'],
            Self::LDN => seq!['L', 'D', 'N'],
            Self::LDO => seq!['L', 'D', 'O'],
            Self::LDP => seq!['L', 'D', 'P'],
            Self::LDQ => seq!['L', 'D', 'Q'],
            Self::LDR => seq!['L', 'D', 'R'],
            Self::LDS => seq!['L', 'D', 'S'],
            Self::LDT => seq!['L', 'D', 'T'],
            Self::LDU => seq!['L', 'D', 'U'],
            Self::LDV => seq!['L', 'D', 'V'],
            Self::LDW => seq!['L', 'D', 'W'],
            Self::LDX => seq!['L', 'D', 'X'],
            Self::LDY => seq!['L', 'D', 'Y'],
            Self::LDZ => seq!['L', 'D', 'Z'],
            Self::LDDX => seq!['L', 'D', 'D', 'X'],
            Self::LDDY => seq!['L', 'D', 'D', 'Y'],
            Self::LDDZ => seq!['L', 'D', 'D', 'Z'],
            Self::LDDT => seq!['L', 'D', 'D', 'T'],
            Self::LDA0 => seq!['L', 'D', 'A', '0'],
            Self::LDB0 => seq!['L', 'D', 'B', '0'],
            Self::LDC0 => seq!['L', 'D', 'C', '0'],
            Self::LDD0 => seq!['L', 'D', 'D', '0'],
            Self::LDE0 => seq!['L', 'D', 'E', '0'],
            Self::LDF0 => seq!['L', 'D', 'F', '0'],
            Self::LDG0 => seq!['L', 'D', 'G', '0'],
            Self::LDH0 => seq!['L', 'D', 'H', '0'],
            Self::LDI0 => seq!['L', 'D', 'I', '0'],
            Self::LDJ0 => seq!['L', 'D', 'J', '0'],
            Self::LDK0 => seq!['L', 'D', 'K', '0'],
            Self::LDL0 => seq!['L', 'D', 'L', '0'],
            Self::LDM0 => seq!['L', 'D', 'M', '0'],
            Self::LDN0 => seq!['L', 'D', 'N', '0'],
            Self::LDO0 => seq!['L', 'D', 'O', '0'],
            Self::LDP0 => seq!['L', 'D', 'P', '0'],
            Self::LDQ0 => seq!['L', 'D', 'Q', '0'],
            Self::LDR0 => seq!['L', 'D', 'R', '0'],
            Self::LDS0 => seq!['L', 'D', 'S', '0'],
            Self::LDT0 => seq!['L', 'D', 'T', '0'],
            Self::LDU0 => seq!['L', 'D', 'U', '0'],
            Self::LDV0 => seq!['L', 'D', 'V', '0'],
            Self::LDW0 => seq!['L', 'D', 'W', '0'],
            Self::LDX0 => seq!['L', 'D', 'X', '0'],
            Self::LDY0 => seq!['L', 'D', 'Y', '0'],
            Self::LDZ0 => seq!['L', 'D', 'Z', '0'],
            Self::LDPC => seq!['L', 'D', 'P', 'C'],
            Self::LDTID => seq!['L', 'D', 'T', 'I', 'D'],
            Self::RCA => seq!['R', 'C', 'A'],
            Self::RCB => seq!['R', 'C', 'B'],
            Self::RCC => seq!['R', 'C', 'C'],
            Self::RCD => seq!['R', 'C', 'D'],
            Self::RCE => seq!['R', 'C', 'E'],
            Self::RCF => seq!['R', 'C', 'F'],
            Self::RCG => seq!['R', 'C', 'G'],
            Self::RCH => seq!['R', 'C', 'H'],
            Self::RCI => seq!['R', 'C', 'I'],
            Self::RCJ => seq!['R', 'C', 'J'],
            Self::RCK => seq!['R', 'C', 'K'],
            Self::RCL => seq!['R', 'C', 'L'],
            Self::RCM => seq!['R', 'C', 'M'],
            Self::RCN => seq!['R', 'C', 'N'],
            Self::RCO => seq!['R', 'C', 'O'],
            Self::RCP => seq!['R', 'C', 'P'],
            Self::RCQ => seq!['R', 'C', 'Q'],
            Self::RCR => seq!['R', 'C', 'R'],
            Self::RCS => seq!['R', 'C', 'S'],
            Self::RCT => seq!['R', 'C', 'T'],
            Self::RCU => seq!['R', 'C', 'U'],
            Self::RCV => seq!['R', 'C', 'V'],
            Self::RCW => seq!['R', 'C', 'W'],
            Self::RCX => seq!['R', 'C', 'X'],
            Self::RCY => seq!['R', 'C', 'Y'],
            Self::RCZ => seq!['R', 'C', 'Z'],
            Self::RCDX => seq!['R', 'C', 'D', 'X'],
            Self::RCDY => seq!['R', 'C', 'D', 'Y'],
            Self::RCDZ => seq!['R', 'C', 'D', 'Z'],
            Self::RCDT => seq!['R', 'C', 'D', 'T'],
        }
    }

    /// The operation with a given opcode, if any.
    #[verifier::opaque]
    pub open spec fn spec_from_u32(opcode: u32) -> Option<Self> {
        match opcode {
            0x0000 => Some(Self::NULL),
            0x03CC => Some(Self::ADD),
            0x03CD => Some(Self::SUB),
            0x03CE => Some(Self::MUL),
            0x03CF => Some(Self::DIV),
            0x03D0 => Some(Self::AND),
            0x03D1 => Some(Self::NAND),
            0x03D2 => Some(Self::OR),
            0x03D3 => Some(Self::NOR),
            0x03D4 => Some(Self::XOR),
            0x03D5 => Some(Self::NOT),
            0x03D6 => Some(Self::INC),
            0x03D7 => Some(Self::DEC),
            0x03D8 => Some(Self::SWAP),
            0x03D9 => Some(Self::DUP),
            0x03DA => Some(Self::OVER),
            0x03DB => Some(Self::DROP),
            0x03DC => Some(Self::LSHIFT),
            0x03DD => Some(Self::RSHIFT),
            0x03DE => Some(Self::MALLOC),
            0x03DF => Some(Self::FREE),
            0x03E0 => Some(Self::MEMCPY),
            0x03E1 => Some(Self::MEMSET),
            0x03E2 => Some(Self::READ),
            0x03E3 => Some(Self::WRITE),
            0x03E4 => Some(Self::ADD_PTR),
            0x03E5 => Some(Self::SUB_PTR),
            0x03E6 => Some(Self::TERNARY),
            0x0798 => Some(Self::ACOS),
            0x0799 => Some(Self::ACOSH),
            0x079A => Some(Self::ASIN),
            0x079B => Some(Self::ASINH),
            0x079C => Some(Self::ATAN),
            0x079D => Some(Self::ATAN2),
            0x079E => Some(Self::ATANH),
            0x079F => Some(Self::CBRT),
            0x07A0 => Some(Self::CEIL),
            0x07A1 => Some(Self::CPYSGN),
            0x07A2 => Some(Self::COS),
            0x07A3 => Some(Self::COSH),
            0x07A4 => Some(Self::COSPI),
            0x07A5 => Some(Self::BESI0),
            0x07A6 => Some(Self::BESI1),
            0x07A7 => Some(Self::ERF),
            0x07A8 => Some(Self::ERFC),
            0x07A9 => Some(Self::ERFCI),
            0x07AA => Some(Self::ERFCX),
            0x07AB => Some(Self::ERFI),
            0x07AC => Some(Self::EXP),
            0x07AD => Some(Self::EXP10),
            0x07AE => Some(Self::EXP2),
            0x07AF => Some(Self::EXPM1),
            0x07B0 => Some(Self::FABS),
            0x07B1 => Some(Self::FDIM),
            0x07B2 => Some(Self::FLOOR),
            0x07B3 => Some(Self::FMA),
            0x07B4 => Some(Self::FMAX),
            0x07B5 => Some(Self::FMIN),
            0x07B6 => Some(Self::FMOD),
            0x07B7 => Some(Self::FREXP),
            0x07B8 => Some(Self::HYPOT),
            0x07B9 => Some(Self::ILOGB),
            0x07BA => Some(Self::ISFIN),
            0x07BB => Some(Self::ISINF),
            0x07BC => Some(Self::ISNAN),
            0x07BD => Some(Self::BESJ0),
            0x07BE => Some(Self::BESJ1),
            0x07BF => Some(Self::BESJN),
            0x07C0 => Some(Self::LDEXP),
            0x07C1 => Some(Self::LGAMMA),
            0x07C2 => Some(Self::LLRINT),
            0x07C3 => Some(Self::LLROUND),
            0x07C4 => Some(Self::LOG),
            0x07C5 => Some(Self::LOG10),
            0x07C6 => Some(Self::LOG1P),
            0x07C7 => Some(Self::LOG2),
            0x07C8 => Some(Self::LOGB),
            0x07C9 => Some(Self::LRINT),
            0x07CA => Some(Self::LROUND),
            0x07CB => Some(Self::MAX),
            0x07CC => Some(Self::MIN),
            0x07CD => Some(Self::MODF),
            0x07CE => Some(Self::NAN),
            0x07CF => Some(Self::NEARINT),
            0x07D0 => Some(Self::NXTAFT),
            0x07D1 => Some(Self::NORM),
            0x07D2 => Some(Self::NORM3D),
            0x07D3 => Some(Self::NORM4D),
            0x07D4 => Some(Self::NORMCDF),
            0x07D5 => Some(Self::NORMCDFINV),
            0x07D6 => Some(Self::POW),
            0x07D7 => Some(Self::RCBRT),
            0x07D8 => Some(Self::REM),
            0x07D9 => Some(Self::REMQUO),
            0x07DA => Some(Self::RHYPOT),
            0x07DB => Some(Self::RINT),
            0x07DC => Some(Self::RNORM),
            0x07DD => Some(Self::RNORM3D),
            0x07DE => Some(Self::RNORM4D),
            0x07DF => Some(Self::ROUND),
            0x07E0 => Some(Self::RSQRT),
            0x07E1 => Some(Self::SCALBLN),
            0x07E2 => Some(Self::SCALBN),
            0x07E3 => Some(Self::SGNBIT),
            0x07E4 => Some(Self::SIN),
            0x07E5 => Some(Self::SINH),
            0x07E6 => Some(Self::SINPI),
            0x07E7 => Some(Self::SQRT),
            0x07E8 => Some(Self::TAN),
            0x07E9 => Some(Self::TANH),
            0x07EA => Some(Self::TGAMMA),
            0x07EB => Some(Self::TRUNC),
            0x07EC => Some(Self::BESY0),
            0x07ED => Some(Self::BESY1),
            0x07EE => Some(Self::BESYN),
            0x0B64 => Some(Self::PRINTC),
            0x0B65 => Some(Self::PRINTCT),
            0x0B66 => Some(Self::PRINTFF),
            0x0B67 => Some(Self::PRINTFFT),
            0x12FC => Some(Self::LDA),
            0x12FD => Some(Self::LDB),
            0x12FE => Some(Self::LDC),
            0x12FF => Some(Self::LDD),
            0x1300 => Some(Self::LDE),
            0x1301 => Some(Self::LDF),
            0x1302 => Some(Self::LDG),
            0x1303 => Some(Self::LDH),
            0x1304 => Some(Self::LDI),
            0x1305 => Some(Self::LDJ),
            0x1306 => Some(Self::LDK),
            0x1307 => Some(Self::LDL),
            0x1308 => Some(Self::LDM),
            0x1309 => Some(Self::LDN),
            0x130A => Some(Self::LDO),
            0x130B => Some(Self::LDP),
            0x130C => Some(Self::LDQ),
            0x130D => Some(Self::LDR),
            0x130E => Some(Self::LDS),
            0x130F => Some(Self::LDT),
            0x1310 => Some(Self::LDU),
            0x1311 => Some(Self::LDV),
            0x1312 => Some(Self::LDW),
            0x1313 => Some(Self::LDX),
            0x1314 => Some(Self::LDY),
            0x1315 => Some(Self::LDZ),
            0x1316 => Some(Self::LDDX),
            0x1317 => Some(Self::LDDY),
            0x1318 => Some(Self::LDDZ),
            0x1319 => Some(Self::LDDT),
            0x131A => Some(Self::LDA0),
            0x131B => Some(Self::LDB0),
            0x131C => Some(Self::LDC0),
            0x131D => Some(Self::LDD0),
            0x131E => Some(Self::LDE0),
            0x131F => Some(Self::LDF0),
            0x1320 => Some(Self::LDG0),
            0x1321 => Some(Self::LDH0),
            0x1322 => Some(Self::LDI0),
            0x1323 => Some(Self::LDJ0),
            0x1324 => Some(Self::LDK0),
            0x1325 => Some(Self::LDL0),
            0x1326 => Some(Self::LDM0),
            0x1327 => Some(Self::LDN0),
            0x1328 => Some(Self::LDO0),
            0x1329 => Some(Self::LDP0),
            0x132A => Some(Self::LDQ0),
            0x132B => Some(Self::LDR0),
            0x132C => Some(Self::LDS0),
            0x132D => Some(Self::LDT0),
            0x132E => Some(Self::LDU0),
            0x132F => Some(Self::LDV0),
            0x1330 => Some(Self::LDW0),
            0x1331 => Some(Self::LDX0),
            0x1332 => Some(Self::LDY0),
            0x1333 => Some(Self::LDZ0),
            0x1334 => Some(Self::LDPC),
            0x1335 => Some(Self::LDTID),
            0x16C8 => Some(Self::RCA),
            0x16C9 => Some(Self::RCB),
            0x16CA => Some(Self::RCC),
            0x16CB => Some(Self::RCD),
            0x16CC => Some(Self::RCE),
            0x16CD => Some(Self::RCF),
            0x16CE => Some(Self::RCG),
            0x16CF => Some(Self::RCH),
            0x16D0 => Some(Self::RCI),
            0x16D1 => Some(Self::RCJ),
            0x16D2 => Some(Self::RCK),
            0x16D3 => Some(Self::RCL),
            0x16D4 => Some(Self::RCM),
            0x16D5 => Some(Self::RCN),
            0x16D6 => Some(Self::RCO),
            0x16D7 => Some(Self::RCP),
            0x16D8 => Some(Self::RCQ),
            0x16D9 => Some(Self::RCR),
            0x16DA => Some(Self::RCS),
            0x16DB => Some(Self::RCT),
            0x16DC => Some(Self::RCU),
            0x16DD => Some(Self::RCV),
            0x16DE => Some(Self::RCW),
            0x16DF => Some(Self::RCX),
            0x16E0 => Some(Self::RCY),
            0x16E1 => Some(Self::RCZ),
            0x16E2 => Some(Self::RCDX),
            0x16E3 => Some(Self::RCDY),
            0x16E4 => Some(Self::RCDZ),
            0x16E5 => Some(Self::RCDT),
            _ => None,
        }
    }

    /// Decodes an opcode; `None` when no operation has it.
    pub fn from_u32(opcode: u32) -> (r: Option<Self>)
        ensures
            r == Self::spec_from_u32(opcode),
    {
        reveal(MathStackOperators::spec_from_u32);
        match opcode {
            0x0000 => Some(Self::NULL),
            0x03CC => Some(Self::ADD),
            0x03CD => Some(Self::SUB),
            0x03CE => Some(Self::MUL),
            0x03CF => Some(Self::DIV),
            0x03D0 => Some(Self::AND),
            0x03D1 => Some(Self::NAND),
            0x03D2 => Some(Self::OR),
            0x03D3 => Some(Self::NOR),
            0x03D4 => Some(Self::XOR),
            0x03D5 => Some(Self::NOT),
            0x03D6 => Some(Self::INC),
            0x03D7 => Some(Self::DEC),
            0x03D8 => Some(Self::SWAP),
            0x03D9 => Some(Self::DUP),
            0x03DA => Some(Self::OVER),
            0x03DB => Some(Self::DROP),
            0x03DC => Some(Self::LSHIFT),
            0x03DD => Some(Self::RSHIFT),
            0x03DE => Some(Self::MALLOC),
            0x03DF => Some(Self::FREE),
            0x03E0 => Some(Self::MEMCPY),
            0x03E1 => Some(Self::MEMSET),
            0x03E2 => Some(Self::READ),
            0x03E3 => Some(Self::WRITE),
            0x03E4 => Some(Self::ADD_PTR),
            0x03E5 => Some(Self::SUB_PTR),
            0x03E6 => Some(Self::TERNARY),
            0x0798 => Some(Self::ACOS),
            0x0799 => Some(Self::ACOSH),
            0x079A => Some(Self::ASIN),
            0x079B => Some(Self::ASINH),
            0x079C => Some(Self::ATAN),
            0x079D => Some(Self::ATAN2),
            0x079E => Some(Self::ATANH),
            0x079F => Some(Self::CBRT),
            0x07A0 => Some(Self::CEIL),
            0x07A1 => Some(Self::CPYSGN),
            0x07A2 => Some(Self::COS),
            0x07A3 => Some(Self::COSH),
            0x07A4 => Some(Self::COSPI),
            0x07A5 => Some(Self::BESI0),
            0x07A6 => Some(Self::BESI1),
            0x07A7 => Some(Self::ERF),
            0x07A8 => Some(Self::ERFC),
            0x07A9 => Some(Self::ERFCI),
            0x07AA => Some(Self::ERFCX),
            0x07AB => Some(Self::ERFI),
            0x07AC => Some(Self::EXP),
            0x07AD => Some(Self::EXP10),
            0x07AE => Some(Self::EXP2),
            0x07AF => Some(Self::EXPM1),
            0x07B0 => Some(Self::FABS),
            0x07B1 => Some(Self::FDIM),
            0x07B2 => Some(Self::FLOOR),
            0x07B3 => Some(Self::FMA),
            0x07B4 => Some(Self::FMAX),
            0x07B5 => Some(Self::FMIN),
            0x07B6 => Some(Self::FMOD),
            0x07B7 => Some(Self::FREXP),
            0x07B8 => Some(Self::HYPOT),
            0x07B9 => Some(Self::ILOGB),
            0x07BA => Some(Self::ISFIN),
            0x07BB => Some(Self::ISINF),
            0x07BC => Some(Self::ISNAN),
            0x07BD => Some(Self::BESJ0),
            0x07BE => Some(Self::BESJ1),
            0x07BF => Some(Self::BESJN),
            0x07C0 => Some(Self::LDEXP),
            0x07C1 => Some(Self::LGAMMA),
            0x07C2 => Some(Self::LLRINT),
            0x07C3 => Some(Self::LLROUND),
            0x07C4 => Some(Self::LOG),
            0x07C5 => Some(Self::LOG10),
            0x07C6 => Some(Self::LOG1P),
            0x07C7 => Some(Self::LOG2),
            0x07C8 => Some(Self::LOGB),
            0x07C9 => Some(Self::LRINT),
            0x07CA => Some(Self::LROUND),
            0x07CB => Some(Self::MAX),
            0x07CC => Some(Self::MIN),
            0x07CD => Some(Self::MODF),
            0x07CE => Some(Self::NAN),
            0x07CF => Some(Self::NEARINT),
            0x07D0 => Some(Self::NXTAFT),
            0x07D1 => Some(Self::NORM),
            0x07D2 => Some(Self::NORM3D),
            0x07D3 => Some(Self::NORM4D),
            0x07D4 => Some(Self::NORMCDF),
            0x07D5 => Some(Self::NORMCDFINV),
            0x07D6 => Some(Self::POW),
            0x07D7 => Some(Self::RCBRT),
            0x07D8 => Some(Self::REM),
            0x07D9 => Some(Self::REMQUO),
            0x07DA => Some(Self::RHYPOT),
            0x07DB => Some(Self::RINT),
            0x07DC => Some(Self::RNORM),
            0x07DD => Some(Self::RNORM3D),
            0x07DE => Some(Self::RNORM4D),
            0x07DF => Some(Self::ROUND),
            0x07E0 => Some(Self::RSQRT),
            0x07E1 => Some(Self::SCALBLN),
            0x07E2 => Some(Self::SCALBN),
            0x07E3 => Some(Self::SGNBIT),
            0x07E4 => Some(Self::SIN),
            0x07E5 => Some(Self::SINH),
            0x07E6 => Some(Self::SINPI),
            0x07E7 => Some(Self::SQRT),
            0x07E8 => Some(Self::TAN),
            0x07E9 => Some(Self::TANH),
            0x07EA => Some(Self::TGAMMA),
            0x07EB => Some(Self::TRUNC),
            0x07EC => Some(Self::BESY0),
            0x07ED => Some(Self::BESY1),
            0x07EE => Some(Self::BESYN),
            0x0B64 => Some(Self::PRINTC),
            0x0B65 => Some(Self::PRINTCT),
            0x0B66 => Some(Self::PRINTFF),
            0x0B67 => Some(Self::PRINTFFT),
            0x12FC => Some(Self::LDA),
            0x12FD => Some(Self::LDB),
            0x12FE => Some(Self::LDC),
            0x12FF => Some(Self::LDD),
            0x1300 => Some(Self::LDE),
            0x1301 => Some(Self::LDF),
            0x1302 => Some(Self::LDG),
            0x1303 => Some(Self::LDH),
            0x1304 => Some(Self::LDI),
            0x1305 => Some(Self::LDJ),
            0x1306 => Some(Self::LDK),
            0x1307 => Some(Self::LDL),
            0x1308 => Some(Self::LDM),
            0x1309 => Some(Self::LDN),
            0x130A => Some(Self::LDO),
            0x130B => Some(Self::LDP),
            0x130C => Some(Self::LDQ),
            0x130D => Some(Self::LDR),
            0x130E => Some(Self::LDS),
            0x130F => Some(Self::LDT),
            0x1310 => Some(Self::LDU),
            0x1311 => Some(Self::LDV),
            0x1312 => Some(Self::LDW),
            0x1313 => Some(Self::LDX),
            0x1314 => Some(Self::LDY),
            0x1315 => Some(Self::LDZ),
            0x1316 => Some(Self::LDDX),
            0x1317 => Some(Self::LDDY),
            0x1318 => Some(Self::LDDZ),
            0x1319 => Some(Self::LDDT),
            0x131A => Some(Self::LDA0),
            0x131B => Some(Self::LDB0),
            0x131C => Some(Self::LDC0),
            0x131D => Some(Self::LDD0),
            0x131E => Some(Self::LDE0),
            0x131F => Some(Self::LDF0),
            0x1320 => Some(Self::LDG0),
            0x1321 => Some(Self::LDH0),
            0x1322 => Some(Self::LDI0),
            0x1323 => Some(Self::LDJ0),
            0x1324 => Some(Self::LDK0),
            0x1325 => Some(Self::LDL0),
            0x1326 => Some(Self::LDM0),
            0x1327 => Some(Self::LDN0),
            0x1328 => Some(Self::LDO0),
            0x1329 => Some(Self::LDP0),
            0x132A => Some(Self::LDQ0),
            0x132B => Some(Self::LDR0),
            0x132C => Some(Self::LDS0),
            0x132D => Some(Self::LDT0),
            0x132E => Some(Self::LDU0),
            0x132F => Some(Self::LDV0),
            0x1330 => Some(Self::LDW0),
            0x1331 => Some(Self::LDX0),
            0x1332 => Some(Self::LDY0),
            0x1333 => Some(Self::LDZ0),
            0x1334 => Some(Self::LDPC),
            0x1335 => Some(Self::LDTID),
            0x16C8 => Some(Self::RCA),
            0x16C9 => Some(Self::RCB),
            0x16CA => Some(Self::RCC),
            0x16CB => Some(Self::RCD),
            0x16CC => Some(Self::RCE),
            0x16CD => Some(Self::RCF),
            0x16CE => Some(Self::RCG),
            0x16CF => Some(Self::RCH),
            0x16D0 => Some(Self::RCI),
            0x16D1 => Some(Self::RCJ),
            0x16D2 => Some(Self::RCK),
            0x16D3 => Some(Self::RCL),
            0x16D4 => Some(Self::RCM),
            0x16D5 => Some(Self::RCN),
            0x16D6 => Some(Self::RCO),
            0x16D7 => Some(Self::RCP),
            0x16D8 => Some(Self::RCQ),
            0x16D9 => Some(Self::RCR),
            0x16DA => Some(Self::RCS),
            0x16DB => Some(Self::RCT),
            0x16DC => Some(Self::RCU),
            0x16DD => Some(Self::RCV),
            0x16DE => Some(Self::RCW),
            0x16DF => Some(Self::RCX),
            0x16E0 => Some(Self::RCY),
            0x16E1 => Some(Self::RCZ),
            0x16E2 => Some(Self::RCDX),
            0x16E3 => Some(Self::RCDY),
            0x16E4 => Some(Self::RCDZ),
            0x16E5 => Some(Self::RCDT),
            _ => None,
        }
    }

    /// The opcode of this operation.
    pub fn as_u32(&self) -> (r: u32)
        ensures
            r == self.spec_opcode(),
    {
        match self {
            Self::NULL => 0x0000,
            Self::ADD => 0x03CC,
            Self::SUB => 0x03CD,
            Self::MUL => 0x03CE,
            Self::DIV => 0x03CF,
            Self::AND => 0x03D0,
            Self::NAND => 0x03D1,
            Self::OR => 0x03D2,
            Self::NOR => 0x03D3,
            Self::XOR => 0x03D4,
            Self::NOT => 0x03D5,
            Self::INC => 0x03D6,
            Self::DEC => 0x03D7,
            Self::SWAP => 0x03D8,
            Self::DUP => 0x03D9,
            Self::OVER => 0x03DA,
            Self::DROP => 0x03DB,
            Self::LSHIFT => 0x03DC,
            Self::RSHIFT => 0x03DD,
            Self::MALLOC => 0x03DE,
            Self::FREE => 0x03DF,
            Self::MEMCPY => 0x03E0,
            Self::MEMSET => 0x03E1,
            Self::READ => 0x03E2,
            Self::WRITE => 0x03E3,
            Self::ADD_PTR => 0x03E4,
            Self::SUB_PTR => 0x03E5,
            Self::TERNARY => 0x03E6,
            Self::ACOS => 0x0798,
            Self::ACOSH => 0x0799,
            Self::ASIN => 0x079A,
            Self::ASINH => 0x079B,
            Self::ATAN => 0x079C,
            Self::ATAN2 => 0x079D,
            Self::ATANH => 0x079E,
            Self::CBRT => 0x079F,
            Self::CEIL => 0x07A0,
            Self::CPYSGN => 0x07A1,
            Self::COS => 0x07A2,
            Self::COSH => 0x07A3,
            Self::COSPI => 0x07A4,
            Self::BESI0 => 0x07A5,
            Self::BESI1 => 0x07A6,
            Self::ERF => 0x07A7,
            Self::ERFC => 0x07A8,
            Self::ERFCI => 0x07A9,
            Self::ERFCX => 0x07AA,
            Self::ERFI => 0x07AB,
            Self::EXP => 0x07AC,
            Self::EXP10 => 0x07AD,
            Self::EXP2 => 0x07AE,
            Self::EXPM1 => 0x07AF,
            Self::FABS => 0x07B0,
            Self::FDIM => 0x07B1,
            Self::FLOOR => 0x07B2,
            Self::FMA => 0x07B3,
            Self::FMAX => 0x07B4,
            Self::FMIN => 0x07B5,
            Self::FMOD => 0x07B6,
            Self::FREXP => 0x07B7,
            Self::HYPOT => 0x07B8,
            Self::ILOGB => 0x07B9,
            Self::ISFIN => 0x07BA,
            Self::ISINF => 0x07BB,
            Self::ISNAN => 0x07BC,
            Self::BESJ0 => 0x07BD,
            Self::BESJ1 => 0x07BE,
            Self::BESJN => 0x07BF,
            Self::LDEXP => 0x07C0,
            Self::LGAMMA => 0x07C1,
            Self::LLRINT => 0x07C2,
            Self::LLROUND => 0x07C3,
            Self::LOG => 0x07C4,
            Self::LOG10 => 0x07C5,
            Self::LOG1P => 0x07C6,
            Self::LOG2 => 0x07C7,
            Self::LOGB => 0x07C8,
            Self::LRINT => 0x07C9,
            Self::LROUND => 0x07CA,
            Self::MAX => 0x07CB,
            Self::MIN => 0x07CC,
            Self::MODF => 0x07CD,
            Self::NAN => 0x07CE,
            Self::NEARINT => 0x07CF,
            Self::NXTAFT => 0x07D0,
            Self::NORM => 0x07D1,
            Self::NORM3D => 0x07D2,
            Self::NORM4D => 0x07D3,
            Self::NORMCDF => 0x07D4,
            Self::NORMCDFINV => 0x07D5,
            Self::POW => 0x07D6,
            Self::RCBRT => 0x07D7,
            Self::REM => 0x07D8,
            Self::REMQUO => 0x07D9,
            Self::RHYPOT => 0x07DA,
            Self::RINT => 0x07DB,
            Self::RNORM => 0x07DC,
            Self::RNORM3D => 0x07DD,
            Self::RNORM4D => 0x07DE,
            Self::ROUND => 0x07DF,
            Self::RSQRT => 0x07E0,
            Self::SCALBLN => 0x07E1,
            Self::SCALBN => 0x07E2,
            Self::SGNBIT => 0x07E3,
            Self::SIN => 0x07E4,
            Self::SINH => 0x07E5,
            Self::SINPI => 0x07E6,
            Self::SQRT => 0x07E7,
            Self::TAN => 0x07E8,
            Self::TANH => 0x07E9,
            Self::TGAMMA => 0x07EA,
            Self::TRUNC => 0x07EB,
            Self::BESY0 => 0x07EC,
            Self::BESY1 => 0x07ED,
            Self::BESYN => 0x07EE,
            Self::PRINTC => 0x0B64,
            Self::PRINTCT => 0x0B65,
            Self::PRINTFF => 0x0B66,
            Self::PRINTFFT => 0x0B67,
            Self::LDA => 0x12FC,
            Self::LDB => 0x12FD,
            Self::LDC => 0x12FE,
            Self::LDD => 0x12FF,
            Self::LDE => 0x1300,
            Self::LDF => 0x1301,
            Self::LDG => 0x1302,
            Self::LDH => 0x1303,
            Self::LDI => 0x1304,
            Self::LDJ => 0x1305,
            Self::LDK => 0x1306,
            Self::LDL => 0x1307,
            Self::LDM => 0x1308,
            Self::LDN => 0x1309,
            Self::LDO => 0x130A,
            Self::LDP => 0x130B,
            Self::LDQ => 0x130C,
            Self::LDR => 0x130D,
            Self::LDS => 0x130E,
            Self::LDT => 0x130F,
            Self::LDU => 0x1310,
            Self::LDV => 0x1311,
            Self::LDW => 0x1312,
            Self::LDX => 0x1313,
            Self::LDY => 0x1314,
            Self::LDZ => 0x1315,
            Self::LDDX => 0x1316,
            Self::LDDY => 0x1317,
            Self::LDDZ => 0x1318,
            Self::LDDT => 0x1319,
            Self::LDA0 => 0x131A,
            Self::LDB0 => 0x131B,
            Self::LDC0 => 0x131C,
            Self::LDD0 => 0x131D,
            Self::LDE0 => 0x131E,
            Self::LDF0 => 0x131F,
            Self::LDG0 => 0x1320,
            Self::LDH0 => 0x1321,
            Self::LDI0 => 0x1322,
            Self::LDJ0 => 0x1323,
            Self::LDK0 => 0x1324,
            Self::LDL0 => 0x1325,
            Self::LDM0 => 0x1326,
            Self::LDN0 => 0x1327,
            Self::LDO0 => 0x1328,
            Self::LDP0 => 0x1329,
            Self::LDQ0 => 0x132A,
            Self::LDR0 => 0x132B,
            Self::LDS0 => 0x132C,
            Self::LDT0 => 0x132D,
            Self::LDU0 => 0x132E,
            Self::LDV0 => 0x132F,
            Self::LDW0 => 0x1330,
            Self::LDX0 => 0x1331,
            Self::LDY0 => 0x1332,
            Self::LDZ0 => 0x1333,
            Self::LDPC => 0x1334,
            Self::LDTID => 0x1335,
            Self::RCA => 0x16C8,
            Self::RCB => 0x16C9,
            Self::RCC => 0x16CA,
            Self::RCD => 0x16CB,
            Self::RCE => 0x16CC,
            Self::RCF => 0x16CD,
            Self::RCG => 0x16CE,
            Self::RCH => 0x16CF,
            Self::RCI => 0x16D0,
            Self::RCJ => 0x16D1,
            Self::RCK => 0x16D2,
            Self::RCL => 0x16D3,
            Self::RCM => 0x16D4,
            Self::RCN => 0x16D5,
            Self::RCO => 0x16D6,
            Self::RCP => 0x16D7,
            Self::RCQ => 0x16D8,
            Self::RCR => 0x16D9,
            Self::RCS => 0x16DA,
            Self::RCT => 0x16DB,
            Self::RCU => 0x16DC,
            Self::RCV => 0x16DD,
            Self::RCW => 0x16DE,
            Self::RCX => 0x16DF,
            Self::RCY => 0x16E0,
            Self::RCZ => 0x16E1,
            Self::RCDX => 0x16E2,
            Self::RCDY => 0x16E3,
            Self::RCDZ => 0x16E4,
            Self::RCDT => 0x16E5,
        }
    }

    /// The name of this operation.
    pub fn name_chars(&self) -> (r: Vec<char>)
        ensures
            r@ == self.spec_name(),
    {
        match self {
            Self::NULL => vec!['N', 'U', 'L', 'L'],
            Self::ADD => vec!['A', 'D', 'D'],
            Self::SUB => vec!['S', 'U', 'B'],
            Self::MUL => vec!['M', 'U', 'L'],
            Self::DIV => vec!['D', 'I', 'V'],
            Self::AND => vec!['A', 'N', 'D'],
            Self::NAND => vec!['N', 'A', 'N', 'D'],
            Self::OR => vec!['O', 'R'],
            Self::NOR => vec!['N', 'O', 'R'],
            Self::XOR => vec!['X', 'O', 'R'],
            Self::NOT => vec!['N', 'O', 'T'],
            Self::INC => vec!['I', 'N', 'C'],
            Self::DEC => vec!['D', 'E', 'C'],
            Self::SWAP => vec!['S', 'W', 'A', 'P'],
            Self::DUP => vec!['D', 'U', 'P'],
            Self::OVER => vec!['O', 'V', 'E', 'R'],
            Self::DROP => vec!['D', 'R', 'O', 'P'],
            Self::LSHIFT => vec!['L', 'S', 'H', 'I', 'F', 'T'],
            Self::RSHIFT => vec!['R', 'S', 'H', 'I', 'F', 'T'],
            Self::MALLOC => vec!['M', 'A', 'L', 'L', 'O', 'C'],
            Self::FREE => vec!['F', 'R', 'E', 'E'],
            Self::MEMCPY => vec!['M', 'E', 'M', 'C', 'P', 'Y'],
            Self::MEMSET => vec!['M', 'E', 'M', 'S', 'E', 'T'],
            Self::READ => vec!['R', 'E', 'A', 'D'],
            Self::WRITE => vec!['W', 'R', 'I', 'T', 'E'],
            Self::ADD_PTR => vec!['A', 'D', 'D', '_', 'P', 'T', 'R'],
            Self::SUB_PTR => vec!['S', 'U', 'B', '_', 'P', 'T', 'R'],
            Self::TERNARY => vec!['T', 'E', 'R', 'N', 'A', 'R', 'Y'],
            Self::ACOS => vec!['A', 'C', 'O', 'S'],
            Self::ACOSH => vec!['A', 'C', 'O', 'S', 'H'],
            Self::ASIN => vec!['A', 'S', 'I', 'N'],
            Self::ASINH => vec!['A', 'S', 'I', 'N', 'H'],
            Self::ATAN => vec!['A', 'T', 'A', 'N'],
            Self::ATAN2 => vec!['A', 'T', 'A', 'N', '2'],
            Self::ATANH => vec!['A', 'T', 'A', 'N', 'H'],
            Self::CBRT => vec!['C', 'B', 'R', 'T'],
            Self::CEIL => vec!['C', 'E', 'I', 'L'],
            Self::CPYSGN => vec!['C', 'P', 'Y', 'S', 'G', 'N'],
            Self::COS => vec!['C', 'O', 'S'],
            Self::COSH => vec!['C', 'O', 'S', 'H'],
            Self::COSPI => vec!['C', 'O', 'S', 'P', 'I'],
            Self::BESI0 => vec!['B', 'E', 'S', 'I', '0'],
            Self::BESI1 => vec!['B', 'E', 'S', 'I', '1'],
            Self::ERF => vec!['E', 'R', 'F'],
            Self::ERFC => vec!['E', 'R', 'F', 'C'],
            Self::ERFCI => vec!['E', 'R', 'F', 'C', 'I'],
            Self::ERFCX => vec!['E', 'R', 'F', 'C', 'X'],
            Self::ERFI => vec!['E', 'R', 'F', 'I'],
            Self::EXP => vec!['E', 'X', 'P'],
            Self::EXP10 => vec!['E', 'X', 'P', '1', '0'],
            Self::EXP2 => vec!['E', 'X', 'P', '2'],
            Self::EXPM1 => vec!['E', 'X', 'P', 'M', '1'],
            Self::FABS => vec!['F', 'A', 'B', 'S'],
            Self::FDIM => vec!['F', 'D', 'I', 'M'],
            Self::FLOOR => vec!['F', 'L', 'O', 'O', 'R'],
            Self::FMA => vec!['F', 'M', 'A'],
            Self::FMAX => vec!['F', 'M', 'A', 'X'],
            Self::FMIN => vec!['F', 'M', 'I', 'N'],
            Self::FMOD => vec!['F', 'M', 'O', 'D'],
            Self::FREXP => vec!['F', 'R', 'E', 'X', 'P'],
            Self::HYPOT => vec!['H', 'Y', 'P', 'O', 'T'],
            Self::ILOGB => vec!['I', 'L', 'O', 'G', 'B'],
            Self::ISFIN => vec!['I', 'S', 'F', 'I', 'N'],
            Self::ISINF => vec!['I', 'S', 'I', 'N', 'F'],
            Self::ISNAN => vec!['I', 'S', 'N', 'A', 'N'],
            Self::BESJ0 => vec!['B', 'E', 'S', 'J', '0'],
            Self::BESJ1 => vec!['B', 'E', 'S', 'J', '1'],
            Self::BESJN => vec!['B', 'E', 'S', 'J', 'N'],
            Self::LDEXP => vec!['L', 'D', 'E', 'X', 'P'],
            Self::LGAMMA => vec!['L', 'G', 'A', 'M', 'M', 'A'],
            Self::LLRINT => vec!['L', 'L', 'R', 'I', 'N', 'T'],
            Self::LLROUND => vec!['L', 'L', 'R', 'O', 'U', 'N', 'D'],
            Self::LOG => vec!['L', 'O', 'G'],
            Self::LOG10 => vec!['L', 'O', 'G', '1', '0'],
            Self::LOG1P => vec!['L', 'O', 'G', '1', 'P'],
            Self::LOG2 => vec!['L', 'O', 'G', '2'],
            Self::LOGB => vec!['L', 'O', 'G', 'B'],
            Self::LRINT => vec!['L', 'R', 'I', 'N', 'T'],
            Self::LROUND => vec!['L', 'R', 'O', 'U', 'N', 'D'],
            Self::MAX => vec!['M', 'A', 'X'],
            Self::MIN => vec!['M', 'I', 'N'],
            Self::MODF => vec!['M', 'O', 'D', 'F'],
            Self::NAN => vec!['N', 'A', 'N'],
            Self::NEARINT => vec!['N', 'E', 'A', 'R', 'I', 'N', 'T'],
            Self::NXTAFT => vec!['N', 'X', 'T', 'A', 'F', 'T'],
            Self::NORM => vec!['N', 'O', 'R', 'M'],
            Self::NORM3D => vec!['N', 'O', 'R', 'M', '3', 'D'],
            Self::NORM4D => vec!['N', 'O', 'R', 'M', '4', 'D'],
            Self::NORMCDF => vec!['N', 'O', 'R', 'M', 'C', 'D', 'F'],
            Self::NORMCDFINV => vec!['N', 'O', 'R', 'M', 'C', 'D', 'F', 'I', 'N', 'V'],
            Self::POW => vec!['P', 'O', 'W'],
            Self::RCBRT => vec!['R', 'C', 'B', 'R', 'T'],
            Self::REM => vec!['R', 'E', 'M'],
            Self::REMQUO => vec!['R', 'E', 'M', 'Q', 'U', 'O'],
            Self::RHYPOT => vec!['R', 'H', 'Y', 'P', 'O', 'T'],
            Self::RINT => vec!['R', 'I', 'N', 'T'],
            Self::RNORM => vec!['R', 'N', 'O', 'R', 'M'],
            Self::RNORM3D => vec!['R', 'N', 'O', 'R', 'M', '3', 'D'],
            Self::RNORM4D => vec!['R', 'N', 'O', 'R', 'M', '4', 'D'],
            Self::ROUND => vec!['R', 'O', 'U', 'N', 'D'],
            Self::RSQRT => vec!['R', 'S', 'Q', 'R', 'T'],
            Self::SCALBLN => vec!['S', 'C', 'A', 'L', 'B', 'L', 'N'],
            Self::SCALBN => vec!['S', 'C', 'A', 'L', 'B', 'N'],
            Self::SGNBIT => vec!['S', 'G', 'N', 'B', 'I', 'T'],
            Self::SIN => vec!['S', 'I', 'N'],
            Self::SINH => vec!['S', 'I', 'N', 'H'],
            Self::SINPI => vec!['S', 'I', 'N', 'P', 'I'],
            Self::SQRT => vec!['S', 'Q', 'R', 'T'],
            Self::TAN => vec!['T', 'A', 'N'],
            Self::TANH => vec!['T', 'A', 'N', 'H'],
            Self::TGAMMA => vec!['T', 'G', 'A', 'M', 'M', 'A'],
            Self::TRUNC => vec!['T', 'R', 'U', 'N', 'C'],
            Self::BESY0 => vec!['B', 'E', 'S', 'Y', '0'],
            Self::BESY1 => vec!['B', 'E', 'S', 'Y', '1'],
            Self::BESYN => vec!['B', 'E', 'S', 'Y', 'N'],
            Self::PRINTC => vec!['P', 'R', 'I', 'N', 'T', 'C'],
            Self::PRINTCT => vec!['P', 'R', 'I', 'N', 'T', 'C', 'T'],
            Self::PRINTFF => vec!['P', 'R', 'I', 'N', 'T', 'F', 'F'],
            Self::PRINTFFT => vec!['P', 'R', 'I', 'N', 'T', 'F', 'F', 'T'],
            Self::LDA => vec!['L', 'D', 'A'],
            Self::LDB => vec!['L', 'D', 'B'],
            Self::LDC => vec!['L', 'D', 'C'],
            Self::LDD => vec!['L', 'D', 'D'],
            Self::LDE => vec!['L', 'D', 'E'],
            Self::LDF => vec!['L', 'D', 'F'],
            Self::LDG => vec!['L', 'D', 'G'],
            Self::LDH => vec!['L', 'D', 'H'],
            Self::LDI => vec!['L', 'D', 'I'],
            Self::LDJ => vec!['L', 'D', 'J'],
            Self::LDK => vec!['L', 'D', 'K'],
            Self::LDL => vec!['L', 'D', 'L'],
            Self::LDM => vec!['L', 'D', 'M'],
            Self::LDN => vec!['L', 'D', 'N'],
            Self::LDO => vec!['L', 'D', 'O'],
            Self::LDP => vec!['L', 'D', 'P'],
            Self::LDQ => vec!['L', 'D', 'Q'],
            Self::LDR => vec!['L', 'D', 'R'],
            Self::LDS => vec!['L', 'D', 'S'],
            Self::LDT => vec!['L', 'D', 'T'],
            Self::LDU => vec!['L', 'D', 'U'],
            Self::LDV => vec!['L', 'D', 'V'],
            Self::LDW => vec!['L', 'D', 'W'],
            Self::LDX => vec!['L', 'D', 'X'],
            Self::LDY => vec!['L', 'D', 'Y'],
            Self::LDZ => vec!['L', 'D', 'Z'],
            Self::LDDX => vec!['L', 'D', 'D', 'X'],
            Self::LDDY => vec!['L', 'D', 'D', 'Y'],
            Self::LDDZ => vec!['L', 'D', 'D', 'Z'],
            Self::LDDT => vec!['L', 'D', 'D', 'T'],
            Self::LDA0 => vec!['L', 'D', 'A', '0'],
            Self::LDB0 => vec!['L', 'D', 'B', '0'],
            Self::LDC0 => vec!['L', 'D', 'C', '0'],
            Self::LDD0 => vec!['L', 'D', 'D', '0'],
            Self::LDE0 => vec!['L', 'D', 'E', '0'],
            Self::LDF0 => vec!['L', 'D', 'F', '0'],
            Self::LDG0 => vec!['L', 'D', 'G', '0'],
            Self::LDH0 => vec!['L', 'D', 'H', '0'],
            Self::LDI0 => vec!['L', 'D', 'I', '0'],
            Self::LDJ0 => vec!['L', 'D', 'J', '0'],
            Self::LDK0 => vec!['L', 'D', 'K', '0'],
            Self::LDL0 => vec!['L', 'D', 'L', '0'],
            Self::LDM0 => vec!['L', 'D', 'M', '0'],
            Self::LDN0 => vec!['L', 'D', 'N', '0'],
            Self::LDO0 => vec!['L', 'D', 'O', '0'],
            Self::LDP0 => vec!['L', 'D', 'P', '0'],
            Self::LDQ0 => vec!['L', 'D', 'Q', '0'],
            Self::LDR0 => vec!['L', 'D', 'R', '0'],
            Self::LDS0 => vec!['L', 'D', 'S', '0'],
            Self::LDT0 => vec!['L', 'D', 'T', '0'],
            Self::LDU0 => vec!['L', 'D', 'U', '0'],
            Self::LDV0 => vec!['L', 'D', 'V', '0'],
            Self::LDW0 => vec!['L', 'D', 'W', '0'],
            Self::LDX0 => vec!['L', 'D', 'X', '0'],
            Self::LDY0 => vec!['L', 'D', 'Y', '0'],
            Self::LDZ0 => vec!['L', 'D', 'Z', '0'],
            Self::LDPC => vec!['L', 'D', 'P', 'C'],
            Self::LDTID => vec!['L', 'D', 'T', 'I', 'D'],
            Self::RCA => vec!['R', 'C', 'A'],
            Self::RCB => vec!['R', 'C', 'B'],
            Self::RCC => vec!['R', 'C', 'C'],
            Self::RCD => vec!['R', 'C', 'D'],
            Self::RCE => vec!['R', 'C', 'E'],
            Self::RCF => vec!['R', 'C', 'F'],
            Self::RCG => vec!['R', 'C', 'G'],
            Self::RCH => vec!['R', 'C', 'H'],
            Self::RCI => vec!['R', 'C', 'I'],
            Self::RCJ => vec!['R', 'C', 'J'],
            Self::RCK => vec!['R', 'C', 'K'],
            Self::RCL => vec!['R', 'C', 'L'],
            Self::RCM => vec!['R', 'C', 'M'],
            Self::RCN => vec!['R', 'C', 'N'],
            Self::RCO => vec!['R', 'C', 'O'],
            Self::RCP => vec!['R', 'C', 'P'],
            Self::RCQ => vec!['R', 'C', 'Q'],
            Self::RCR => vec!['R', 'C', 'R'],
            Self::RCS => vec!['R', 'C', 'S'],
            Self::RCT => vec!['R', 'C', 'T'],
            Self::RCU => vec!['R', 'C', 'U'],
            Self::RCV => vec!['R', 'C', 'V'],
            Self::RCW => vec!['R', 'C', 'W'],
            Self::RCX => vec!['R', 'C', 'X'],
            Self::RCY => vec!['R', 'C', 'Y'],
            Self::RCZ => vec!['R', 'C', 'Z'],
            Self::RCDX => vec!['R', 'C', 'D', 'X'],
            Self::RCDY => vec!['R', 'C', 'D', 'Y'],
            Self::RCDZ => vec!['R', 'C', 'D', 'Z'],
            Self::RCDT => vec!['R', 'C', 'D', 'T'],
        }
    }
}

/// Decoding the opcode of an operation gives that operation back.
pub proof fn law_opcode_decodes_to_operation(op: MathStackOperators)
    ensures
        MathStackOperators::spec_from_u32(op.spec_opcode()) == Some(op),
{
    reveal(MathStackOperators::spec_from_u32);
}

/// Every operation name has at least two letters.
pub proof fn lemma_operation_name_length(op: MathStackOperators)
    ensures
        op.spec_name().len() >= 2,
{
}

/// An opcode that decodes to an operation is that operation's opcode.
pub proof fn law_decoded_operation_has_opcode(opcode: u32)
    ensures
        MathStackOperators::spec_from_u32(opcode) matches Some(o) ==> o.spec_opcode() == opcode,
{
    reveal(MathStackOperators::spec_from_u32);
}

} // verus!
