//! The named character references: each name, as it is written after `&`,
//! with the one or two characters it stands for.

use vstd::prelude::*;
use vstd::string::StrSliceExecFns;

verus! {

/// How many named character references there are.
pub const ENTITY_COUNT: usize = 2231;

/// The names that begin with `A` to `K`. A second character of U+0000 stands
/// for none.
pub const UPPER_A_TO_K: [(&'static str, char, char); 245] = [
    ("AElig", '\u{C6}', '\u{0}'),
    ("AElig;", '\u{C6}', '\u{0}'),
    ("AMP", '&', '\u{0}'),
    ("AMP;", '&', '\u{0}'),
    ("Aacute", '\u{C1}', '\u{0}'),
    ("Aacute;", '\u{C1}', '\u{0}'),
    ("Abreve;", '\u{102}', '\u{0}'),
    ("Acirc", '\u{C2}', '\u{0}'),
    ("Acirc;", '\u{C2}', '\u{0}'),
    ("Acy;", '\u{410}', '\u{0}'),
    ("Afr;", '\u{1D504}', '\u{0}'),
    ("Agrave", '\u{C0}', '\u{0}'),
    ("Agrave;", '\u{C0}', '\u{0}'),
    ("Alpha;", '\u{391}', '\u{0}'),
    ("Amacr;", '\u{100}', '\u{0}'),
    ("And;", '\u{2A53}', '\u{0}'),
    ("Aogon;", '\u{104}', '\u{0}'),
    ("Aopf;", '\u{1D538}', '\u{0}'),
    ("ApplyFunction;", '\u{2061}', '\u{0}'),
    ("Aring", '\u{C5}', '\u{0}'),
    ("Aring;", '\u{C5}', '\u{0}'),
    ("Ascr;", '\u{1D49C}', '\u{0}'),
    ("Assign;", '\u{2254}', '\u{0}'),
    ("Atilde", '\u{C3}', '\u{0}'),
    ("Atilde;", '\u{C3}', '\u{0}'),
    ("Auml", '\u{C4}', '\u{0}'),
    ("Auml;", '\u{C4}', '\u{0}'),
    ("Backslash;", '\u{2216}', '\u{0}'),
    ("Barv;", '\u{2AE7}', '\u{0}'),
    ("Barwed;", '\u{2306}', '\u{0}'),
    ("Bcy;", '\u{411}', '\u{0}'),
    ("Because;", '\u{2235}', '\u{0}'),
    ("Bernoullis;", '\u{212C}', '\u{0}'),
    ("Beta;", '\u{392}', '\u{0}'),
    ("Bfr;", '\u{1D505}', '\u{0}'),
    ("Bopf;", '\u{1D539}', '\u{0}'),
    ("Breve;", '\u{2D8}', '\u{0}'),
    ("Bscr;", '\u{212C}', '\u{0}'),
    ("Bumpeq;", '\u{224E}', '\u{0}'),
    ("CHcy;", '\u{427}', '\u{0}'),
    ("COPY", '\u{A9}', '\u{0}'),
    ("COPY;", '\u{A9}', '\u{0}'),
    ("Cacute;", '\u{106}', '\u{0}'),
    ("Cap;", '\u{22D2}', '\u{0}'),
    ("CapitalDifferentialD;", '\u{2145}', '\u{0}'),
    ("Cayleys;", '\u{212D}', '\u{0}'),
    ("Ccaron;", '\u{10C}', '\u{0}'),
    ("Ccedil", '\u{C7}', '\u{0}'),
    ("Ccedil;", '\u{C7}', '\u{0}'),
    ("Ccirc;", '\u{108}', '\u{0}'),
    ("Cconint;", '\u{2230}', '\u{0}'),
    ("Cdot;", '\u{10A}', '\u{0}'),
    ("Cedilla;", '\u{B8}', '\u{0}'),
    ("CenterDot;", '\u{B7}', '\u{0}'),
    ("Cfr;", '\u{212D}', '\u{0}'),
    ("Chi;", '\u{3A7}', '\u{0}'),
    ("CircleDot;", '\u{2299}', '\u{0}'),
    ("CircleMinus;", '\u{2296}', '\u{0}'),
    ("CirclePlus;", '\u{2295}', '\u{0}'),
    ("CircleTimes;", '\u{2297}', '\u{0}'),
    ("ClockwiseContourIntegral;", '\u{2232}', '\u{0}'),
    ("CloseCurlyDoubleQuote;", '\u{201D}', '\u{0}'),
    ("CloseCurlyQuote;", '\u{2019}', '\u{0}'),
    ("Colon;", '\u{2237}', '\u{0}'),
    ("Colone;", '\u{2A74}', '\u{0}'),
    ("Congruent;", '\u{2261}', '\u{0}'),
    ("Conint;", '\u{222F}', '\u{0}'),
    ("ContourIntegral;", '\u{222E}', '\u{0}'),
    ("Copf;", '\u{2102}', '\u{0}'),
    ("Coproduct;", '\u{2210}', '\u{0}'),
    ("CounterClockwiseContourIntegral;", '\u{2233}', '\u{0}'),
    ("Cross;", '\u{2A2F}', '\u{0}'),
    ("Cscr;", '\u{1D49E}', '\u{0}'),
    ("Cup;", '\u{22D3}', '\u{0}'),
    ("CupCap;", '\u{224D}', '\u{0}'),
    ("DD;", '\u{2145}', '\u{0}'),
    ("DDotrahd;", '\u{2911}', '\u{0}'),
    ("DJcy;", '\u{402}', '\u{0}'),
    ("DScy;", '\u{405}', '\u{0}'),
    ("DZcy;", '\u{40F}', '\u{0}'),
    ("Dagger;", '\u{2021}', '\u{0}'),
    ("Darr;", '\u{21A1}', '\u{0}'),
    ("Dashv;", '\u{2AE4}', '\u{0}'),
    ("Dcaron;", '\u{10E}', '\u{0}'),
    ("Dcy;", '\u{414}', '\u{0}'),
    ("Del;", '\u{2207}', '\u{0}'),
    ("Delta;", '\u{394}', '\u{0}'),
    ("Dfr;", '\u{1D507}', '\u{0}'),
    ("DiacriticalAcute;", '\u{B4}', '\u{0}'),
    ("DiacriticalDot;", '\u{2D9}', '\u{0}'),
    ("DiacriticalDoubleAcute;", '\u{2DD}', '\u{0}'),
    ("DiacriticalGrave;", '`', '\u{0}'),
    ("DiacriticalTilde;", '\u{2DC}', '\u{0}'),
    ("Diamond;", '\u{22C4}', '\u{0}'),
    ("DifferentialD;", '\u{2146}', '\u{0}'),
    ("Dopf;", '\u{1D53B}', '\u{0}'),
    ("Dot;", '\u{A8}', '\u{0}'),
    ("DotDot;", '\u{20DC}', '\u{0}'),
    ("DotEqual;", '\u{2250}', '\u{0}'),
    ("DoubleContourIntegral;", '\u{222F}', '\u{0}'),
    ("DoubleDot;", '\u{A8}', '\u{0}'),
    ("DoubleDownArrow;", '\u{21D3}', '\u{0}'),
    ("DoubleLeftArrow;", '\u{21D0}', '\u{0}'),
    ("DoubleLeftRightArrow;", '\u{21D4}', '\u{0}'),
    ("DoubleLeftTee;", '\u{2AE4}', '\u{0}'),
    ("DoubleLongLeftArrow;", '\u{27F8}', '\u{0}'),
    ("DoubleLongLeftRightArrow;", '\u{27FA}', '\u{0}'),
    ("DoubleLongRightArrow;", '\u{27F9}', '\u{0}'),
    ("DoubleRightArrow;", '\u{21D2}', '\u{0}'),
    ("DoubleRightTee;", '\u{22A8}', '\u{0}'),
    ("DoubleUpArrow;", '\u{21D1}', '\u{0}'),
    ("DoubleUpDownArrow;", '\u{21D5}', '\u{0}'),
    ("DoubleVerticalBar;", '\u{2225}', '\u{0}'),
    ("DownArrow;", '\u{2193}', '\u{0}'),
    ("DownArrowBar;", '\u{2913}', '\u{0}'),
    ("DownArrowUpArrow;", '\u{21F5}', '\u{0}'),
    ("DownBreve;", '\u{311}', '\u{0}'),
    ("DownLeftRightVector;", '\u{2950}', '\u{0}'),
    ("DownLeftTeeVector;", '\u{295E}', '\u{0}'),
    ("DownLeftVector;", '\u{21BD}', '\u{0}'),
    ("DownLeftVectorBar;", '\u{2956}', '\u{0}'),
    ("DownRightTeeVector;", '\u{295F}', '\u{0}'),
    ("DownRightVector;", '\u{21C1}', '\u{0}'),
    ("DownRightVectorBar;", '\u{2957}', '\u{0}'),
    ("DownTee;", '\u{22A4}', '\u{0}'),
    ("DownTeeArrow;", '\u{21A7}', '\u{0}'),
    ("Downarrow;", '\u{21D3}', '\u{0}'),
    ("Dscr;", '\u{1D49F}', '\u{0}'),
    ("Dstrok;", '\u{110}', '\u{0}'),
    ("ENG;", '\u{14A}', '\u{0}'),
    ("ETH", '\u{D0}', '\u{0}'),
    ("ETH;", '\u{D0}', '\u{0}'),
    ("Eacute", '\u{C9}', '\u{0}'),
    ("Eacute;", '\u{C9}', '\u{0}'),
    ("Ecaron;", '\u{11A}', '\u{0}'),
    ("Ecirc", '\u{CA}', '\u{0}'),
    ("Ecirc;", '\u{CA}', '\u{0}'),
    ("Ecy;", '\u{42D}', '\u{0}'),
    ("Edot;", '\u{116}', '\u{0}'),
    ("Efr;", '\u{1D508}', '\u{0}'),
    ("Egrave", '\u{C8}', '\u{0}'),
    ("Egrave;", '\u{C8}', '\u{0}'),
    ("Element;", '\u{2208}', '\u{0}'),
    ("Emacr;", '\u{112}', '\u{0}'),
    ("EmptySmallSquare;", '\u{25FB}', '\u{0}'),
    ("EmptyVerySmallSquare;", '\u{25AB}', '\u{0}'),
    ("Eogon;", '\u{118}', '\u{0}'),
    ("Eopf;", '\u{1D53C}', '\u{0}'),
    ("Epsilon;", '\u{395}', '\u{0}'),
    ("Equal;", '\u{2A75}', '\u{0}'),
    ("EqualTilde;", '\u{2242}', '\u{0}'),
    ("Equilibrium;", '\u{21CC}', '\u{0}'),
    ("Escr;", '\u{2130}', '\u{0}'),
    ("Esim;", '\u{2A73}', '\u{0}'),
    ("Eta;", '\u{397}', '\u{0}'),
    ("Euml", '\u{CB}', '\u{0}'),
    ("Euml;", '\u{CB}', '\u{0}'),
    ("Exists;", '\u{2203}', '\u{0}'),
    ("ExponentialE;", '\u{2147}', '\u{0}'),
    ("Fcy;", '\u{424}', '\u{0}'),
    ("Ffr;", '\u{1D509}', '\u{0}'),
    ("FilledSmallSquare;", '\u{25FC}', '\u{0}'),
    ("FilledVerySmallSquare;", '\u{25AA}', '\u{0}'),
    ("Fopf;", '\u{1D53D}', '\u{0}'),
    ("ForAll;", '\u{2200}', '\u{0}'),
    ("Fouriertrf;", '\u{2131}', '\u{0}'),
    ("Fscr;", '\u{2131}', '\u{0}'),
    ("GJcy;", '\u{403}', '\u{0}'),
    ("GT", '>', '\u{0}'),
    ("GT;", '>', '\u{0}'),
    ("Gamma;", '\u{393}', '\u{0}'),
    ("Gammad;", '\u{3DC}', '\u{0}'),
    ("Gbreve;", '\u{11E}', '\u{0}'),
    ("Gcedil;", '\u{122}', '\u{0}'),
    ("Gcirc;", '\u{11C}', '\u{0}'),
    ("Gcy;", '\u{413}', '\u{0}'),
    ("Gdot;", '\u{120}', '\u{0}'),
    ("Gfr;", '\u{1D50A}', '\u{0}'),
    ("Gg;", '\u{22D9}', '\u{0}'),
    ("Gopf;", '\u{1D53E}', '\u{0}'),
    ("GreaterEqual;", '\u{2265}', '\u{0}'),
    ("GreaterEqualLess;", '\u{22DB}', '\u{0}'),
    ("GreaterFullEqual;", '\u{2267}', '\u{0}'),
    ("GreaterGreater;", '\u{2AA2}', '\u{0}'),
    ("GreaterLess;", '\u{2277}', '\u{0}'),
    ("GreaterSlantEqual;", '\u{2A7E}', '\u{0}'),
    ("GreaterTilde;", '\u{2273}', '\u{0}'),
    ("Gscr;", '\u{1D4A2}', '\u{0}'),
    ("Gt;", '\u{226B}', '\u{0}'),
    ("HARDcy;", '\u{42A}', '\u{0}'),
    ("Hacek;", '\u{2C7}', '\u{0}'),
    ("Hat;", '^', '\u{0}'),
    ("Hcirc;", '\u{124}', '\u{0}'),
    ("Hfr;", '\u{210C}', '\u{0}'),
    ("HilbertSpace;", '\u{210B}', '\u{0}'),
    ("Hopf;", '\u{210D}', '\u{0}'),
    ("HorizontalLine;", '\u{2500}', '\u{0}'),
    ("Hscr;", '\u{210B}', '\u{0}'),
    ("Hstrok;", '\u{126}', '\u{0}'),
    ("HumpDownHump;", '\u{224E}', '\u{0}'),
    ("HumpEqual;", '\u{224F}', '\u{0}'),
    ("IEcy;", '\u{415}', '\u{0}'),
    ("IJlig;", '\u{132}', '\u{0}'),
    ("IOcy;", '\u{401}', '\u{0}'),
    ("Iacute", '\u{CD}', '\u{0}'),
    ("Iacute;", '\u{CD}', '\u{0}'),
    ("Icirc", '\u{CE}', '\u{0}'),
    ("Icirc;", '\u{CE}', '\u{0}'),
    ("Icy;", '\u{418}', '\u{0}'),
    ("Idot;", '\u{130}', '\u{0}'),
    ("Ifr;", '\u{2111}', '\u{0}'),
    ("Igrave", '\u{CC}', '\u{0}'),
    ("Igrave;", '\u{CC}', '\u{0}'),
    ("Im;", '\u{2111}', '\u{0}'),
    ("Imacr;", '\u{12A}', '\u{0}'),
    ("ImaginaryI;", '\u{2148}', '\u{0}'),
    ("Implies;", '\u{21D2}', '\u{0}'),
    ("Int;", '\u{222C}', '\u{0}'),
    ("Integral;", '\u{222B}', '\u{0}'),
    ("Intersection;", '\u{22C2}', '\u{0}'),
    ("InvisibleComma;", '\u{2063}', '\u{0}'),
    ("InvisibleTimes;", '\u{2062}', '\u{0}'),
    ("Iogon;", '\u{12E}', '\u{0}'),
    ("Iopf;", '\u{1D540}', '\u{0}'),
    ("Iota;", '\u{399}', '\u{0}'),
    ("Iscr;", '\u{2110}', '\u{0}'),
    ("Itilde;", '\u{128}', '\u{0}'),
    ("Iukcy;", '\u{406}', '\u{0}'),
    ("Iuml", '\u{CF}', '\u{0}'),
    ("Iuml;", '\u{CF}', '\u{0}'),
    ("Jcirc;", '\u{134}', '\u{0}'),
    ("Jcy;", '\u{419}', '\u{0}'),
    ("Jfr;", '\u{1D50D}', '\u{0}'),
    ("Jopf;", '\u{1D541}', '\u{0}'),
    ("Jscr;", '\u{1D4A5}', '\u{0}'),
    ("Jsercy;", '\u{408}', '\u{0}'),
    ("Jukcy;", '\u{404}', '\u{0}'),
    ("KHcy;", '\u{425}', '\u{0}'),
    ("KJcy;", '\u{40C}', '\u{0}'),
    ("Kappa;", '\u{39A}', '\u{0}'),
    ("Kcedil;", '\u{136}', '\u{0}'),
    ("Kcy;", '\u{41A}', '\u{0}'),
    ("Kfr;", '\u{1D50E}', '\u{0}'),
    ("Kopf;", '\u{1D542}', '\u{0}'),
    ("Kscr;", '\u{1D4A6}', '\u{0}'),
];

/// The names that begin with `L` to `Z`. A second character of U+0000 stands
/// for none.
pub const UPPER_L_TO_Z: [(&'static str, char, char); 389] = [
    ("LJcy;", '\u{409}', '\u{0}'),
    ("LT", '<', '\u{0}'),
    ("LT;", '<', '\u{0}'),
    ("Lacute;", '\u{139}', '\u{0}'),
    ("Lambda;", '\u{39B}', '\u{0}'),
    ("Lang;", '\u{27EA}', '\u{0}'),
    ("Laplacetrf;", '\u{2112}', '\u{0}'),
    ("Larr;", '\u{219E}', '\u{0}'),
    ("Lcaron;", '\u{13D}', '\u{0}'),
    ("Lcedil;", '\u{13B}', '\u{0}'),
    ("Lcy;", '\u{41B}', '\u{0}'),
    ("LeftAngleBracket;", '\u{27E8}', '\u{0}'),
    ("LeftArrow;", '\u{2190}', '\u{0}'),
    ("LeftArrowBar;", '\u{21E4}', '\u{0}'),
    ("LeftArrowRightArrow;", '\u{21C6}', '\u{0}'),
    ("LeftCeiling;", '\u{2308}', '\u{0}'),
    ("LeftDoubleBracket;", '\u{27E6}', '\u{0}'),
    ("LeftDownTeeVector;", '\u{2961}', '\u{0}'),
    ("LeftDownVector;", '\u{21C3}', '\u{0}'),
    ("LeftDownVectorBar;", '\u{2959}', '\u{0}'),
    ("LeftFloor;", '\u{230A}', '\u{0}'),
    ("LeftRightArrow;", '\u{2194}', '\u{0}'),
    ("LeftRightVector;", '\u{294E}', '\u{0}'),
    ("LeftTee;", '\u{22A3}', '\u{0}'),
    ("LeftTeeArrow;", '\u{21A4}', '\u{0}'),
    ("LeftTeeVector;", '\u{295A}', '\u{0}'),
    ("LeftTriangle;", '\u{22B2}', '\u{0}'),
    ("LeftTriangleBar;", '\u{29CF}', '\u{0}'),
    ("LeftTriangleEqual;", '\u{22B4}', '\u{0}'),
    ("LeftUpDownVector;", '\u{2951}', '\u{0}'),
    ("LeftUpTeeVector;", '\u{2960}', '\u{0}'),
    ("LeftUpVector;", '\u{21BF}', '\u{0}'),
    ("LeftUpVectorBar;", '\u{2958}', '\u{0}'),
    ("LeftVector;", '\u{21BC}', '\u{0}'),
    ("LeftVectorBar;", '\u{2952}', '\u{0}'),
    ("Leftarrow;", '\u{21D0}', '\u{0}'),
    ("Leftrightarrow;", '\u{21D4}', '\u{0}'),
    ("LessEqualGreater;", '\u{22DA}', '\u{0}'),
    ("LessFullEqual;", '\u{2266}', '\u{0}'),
    ("LessGreater;", '\u{2276}', '\u{0}'),
    ("LessLess;", '\u{2AA1}', '\u{0}'),
    ("LessSlantEqual;", '\u{2A7D}', '\u{0}'),
    ("LessTilde;", '\u{2272}', '\u{0}'),
    ("Lfr;", '\u{1D50F}', '\u{0}'),
    ("Ll;", '\u{22D8}', '\u{0}'),
    ("Lleftarrow;", '\u{21DA}', '\u{0}'),
    ("Lmidot;", '\u{13F}', '\u{0}'),
    ("LongLeftArrow;", '\u{27F5}', '\u{0}'),
    ("LongLeftRightArrow;", '\u{27F7}', '\u{0}'),
    ("LongRightArrow;", '\u{27F6}', '\u{0}'),
    ("Longleftarrow;", '\u{27F8}', '\u{0}'),
    ("Longleftrightarrow;", '\u{27FA}', '\u{0}'),
    ("Longrightarrow;", '\u{27F9}', '\u{0}'),
    ("Lopf;", '\u{1D543}', '\u{0}'),
    ("LowerLeftArrow;", '\u{2199}', '\u{0}'),
    ("LowerRightArrow;", '\u{2198}', '\u{0}'),
    ("Lscr;", '\u{2112}', '\u{0}'),
    ("Lsh;", '\u{21B0}', '\u{0}'),
    ("Lstrok;", '\u{141}', '\u{0}'),
    ("Lt;", '\u{226A}', '\u{0}'),
    ("Map;", '\u{2905}', '\u{0}'),
    ("Mcy;", '\u{41C}', '\u{0}'),
    ("MediumSpace;", '\u{205F}', '\u{0}'),
    ("Mellintrf;", '\u{2133}', '\u{0}'),
    ("Mfr;", '\u{1D510}', '\u{0}'),
    ("MinusPlus;", '\u{2213}', '\u{0}'),
    ("Mopf;", '\u{1D544}', '\u{0}'),
    ("Mscr;", '\u{2133}', '\u{0}'),
    ("Mu;", '\u{39C}', '\u{0}'),
    ("NJcy;", '\u{40A}', '\u{0}'),
    ("Nacute;", '\u{143}', '\u{0}'),
    ("Ncaron;", '\u{147}', '\u{0}'),
    ("Ncedil;", '\u{145}', '\u{0}'),
    ("Ncy;", '\u{41D}', '\u{0}'),
    ("NegativeMediumSpace;", '\u{200B}', '\u{0}'),
    ("NegativeThickSpace;", '\u{200B}', '\u{0}'),
    ("NegativeThinSpace;", '\u{200B}', '\u{0}'),
    ("NegativeVeryThinSpace;", '\u{200B}', '\u{0}'),
    ("NestedGreaterGreater;", '\u{226B}', '\u{0}'),
    ("NestedLessLess;", '\u{226A}', '\u{0}'),
    ("NewLine;", '\u{A}', '\u{0}'),
    ("Nfr;", '\u{1D511}', '\u{0}'),
    ("NoBreak;", '\u{2060}', '\u{0}'),
    ("NonBreakingSpace;", '\u{A0}', '\u{0}'),
    ("Nopf;", '\u{2115}', '\u{0}'),
    ("Not;", '\u{2AEC}', '\u{0}'),
    ("NotCongruent;", '\u{2262}', '\u{0}'),
    ("NotCupCap;", '\u{226D}', '\u{0}'),
    ("NotDoubleVerticalBar;", '\u{2226}', '\u{0}'),
    ("NotElement;", '\u{2209}', '\u{0}'),
    ("NotEqual;", '\u{2260}', '\u{0}'),
    ("NotEqualTilde;", '\u{2242}', '\u{338}'),
    ("NotExists;", '\u{2204}', '\u{0}'),
    ("NotGreater;", '\u{226F}', '\u{0}'),
    ("NotGreaterEqual;", '\u{2271}', '\u{0}'),
    ("NotGreaterFullEqual;", '\u{2267}', '\u{338}'),
    ("NotGreaterGreater;", '\u{226B}', '\u{338}'),
    ("NotGreaterLess;", '\u{2279}', '\u{0}'),
    ("NotGreaterSlantEqual;", '\u{2A7E}', '\u{338}'),
    ("NotGreaterTilde;", '\u{2275}', '\u{0}'),
    ("NotHumpDownHump;", '\u{224E}', '\u{338}'),
    ("NotHumpEqual;", '\u{224F}', '\u{338}'),
    ("NotLeftTriangle;", '\u{22EA}', '\u{0}'),
    ("NotLeftTriangleBar;", '\u{29CF}', '\u{338}'),
    ("NotLeftTriangleEqual;", '\u{22EC}', '\u{0}'),
    ("NotLess;", '\u{226E}', '\u{0}'),
    ("NotLessEqual;", '\u{2270}', '\u{0}'),
    ("NotLessGreater;", '\u{2278}', '\u{0}'),
    ("NotLessLess;", '\u{226A}', '\u{338}'),
    ("NotLessSlantEqual;", '\u{2A7D}', '\u{338}'),
    ("NotLessTilde;", '\u{2274}', '\u{0}'),
    ("NotNestedGreaterGreater;", '\u{2AA2}', '\u{338}'),
    ("NotNestedLessLess;", '\u{2AA1}', '\u{338}'),
    ("NotPrecedes;", '\u{2280}', '\u{0}'),
    ("NotPrecedesEqual;", '\u{2AAF}', '\u{338}'),
    ("NotPrecedesSlantEqual;", '\u{22E0}', '\u{0}'),
    ("NotReverseElement;", '\u{220C}', '\u{0}'),
    ("NotRightTriangle;", '\u{22EB}', '\u{0}'),
    ("NotRightTriangleBar;", '\u{29D0}', '\u{338}'),
    ("NotRightTriangleEqual;", '\u{22ED}', '\u{0}'),
    ("NotSquareSubset;", '\u{228F}', '\u{338}'),
    ("NotSquareSubsetEqual;", '\u{22E2}', '\u{0}'),
    ("NotSquareSuperset;", '\u{2290}', '\u{338}'),
    ("NotSquareSupersetEqual;", '\u{22E3}', '\u{0}'),
    ("NotSubset;", '\u{2282}', '\u{20D2}'),
    ("NotSubsetEqual;", '\u{2288}', '\u{0}'),
    ("NotSucceeds;", '\u{2281}', '\u{0}'),
    ("NotSucceedsEqual;", '\u{2AB0}', '\u{338}'),
    ("NotSucceedsSlantEqual;", '\u{22E1}', '\u{0}'),
    ("NotSucceedsTilde;", '\u{227F}', '\u{338}'),
    ("NotSuperset;", '\u{2283}', '\u{20D2}'),
    ("NotSupersetEqual;", '\u{2289}', '\u{0}'),
    ("NotTilde;", '\u{2241}', '\u{0}'),
    ("NotTildeEqual;", '\u{2244}', '\u{0}'),
    ("NotTildeFullEqual;", '\u{2247}', '\u{0}'),
    ("NotTildeTilde;", '\u{2249}', '\u{0}'),
    ("NotVerticalBar;", '\u{2224}', '\u{0}'),
    ("Nscr;", '\u{1D4A9}', '\u{0}'),
    ("Ntilde", '\u{D1}', '\u{0}'),
    ("Ntilde;", '\u{D1}', '\u{0}'),
    ("Nu;", '\u{39D}', '\u{0}'),
    ("OElig;", '\u{152}', '\u{0}'),
    ("Oacute", '\u{D3}', '\u{0}'),
    ("Oacute;", '\u{D3}', '\u{0}'),
    ("Ocirc", '\u{D4}', '\u{0}'),
    ("Ocirc;", '\u{D4}', '\u{0}'),
    ("Ocy;", '\u{41E}', '\u{0}'),
    ("Odblac;", '\u{150}', '\u{0}'),
    ("Ofr;", '\u{1D512}', '\u{0}'),
    ("Ograve", '\u{D2}', '\u{0}'),
    ("Ograve;", '\u{D2}', '\u{0}'),
    ("Omacr;", '\u{14C}', '\u{0}'),
    ("Omega;", '\u{3A9}', '\u{0}'),
    ("Omicron;", '\u{39F}', '\u{0}'),
    ("Oopf;", '\u{1D546}', '\u{0}'),
    ("OpenCurlyDoubleQuote;", '\u{201C}', '\u{0}'),
    ("OpenCurlyQuote;", '\u{2018}', '\u{0}'),
    ("Or;", '\u{2A54}', '\u{0}'),
    ("Oscr;", '\u{1D4AA}', '\u{0}'),
    ("Oslash", '\u{D8}', '\u{0}'),
    ("Oslash;", '\u{D8}', '\u{0}'),
    ("Otilde", '\u{D5}', '\u{0}'),
    ("Otilde;", '\u{D5}', '\u{0}'),
    ("Otimes;", '\u{2A37}', '\u{0}'),
    ("Ouml", '\u{D6}', '\u{0}'),
    ("Ouml;", '\u{D6}', '\u{0}'),
    ("OverBar;", '\u{203E}', '\u{0}'),
    ("OverBrace;", '\u{23DE}', '\u{0}'),
    ("OverBracket;", '\u{23B4}', '\u{0}'),
    ("OverParenthesis;", '\u{23DC}', '\u{0}'),
    ("PartialD;", '\u{2202}', '\u{0}'),
    ("Pcy;", '\u{41F}', '\u{0}'),
    ("Pfr;", '\u{1D513}', '\u{0}'),
    ("Phi;", '\u{3A6}', '\u{0}'),
    ("Pi;", '\u{3A0}', '\u{0}'),
    ("PlusMinus;", '\u{B1}', '\u{0}'),
    ("Poincareplane;", '\u{210C}', '\u{0}'),
    ("Popf;", '\u{2119}', '\u{0}'),
    ("Pr;", '\u{2ABB}', '\u{0}'),
    ("Precedes;", '\u{227A}', '\u{0}'),
    ("PrecedesEqual;", '\u{2AAF}', '\u{0}'),
    ("PrecedesSlantEqual;", '\u{227C}', '\u{0}'),
    ("PrecedesTilde;", '\u{227E}', '\u{0}'),
    ("Prime;", '\u{2033}', '\u{0}'),
    ("Product;", '\u{220F}', '\u{0}'),
    ("Proportion;", '\u{2237}', '\u{0}'),
    ("Proportional;", '\u{221D}', '\u{0}'),
    ("Pscr;", '\u{1D4AB}', '\u{0}'),
    ("Psi;", '\u{3A8}', '\u{0}'),
    ("QUOT", '"', '\u{0}'),
    ("QUOT;", '"', '\u{0}'),
    ("Qfr;", '\u{1D514}', '\u{0}'),
    ("Qopf;", '\u{211A}', '\u{0}'),
    ("Qscr;", '\u{1D4AC}', '\u{0}'),
    ("RBarr;", '\u{2910}', '\u{0}'),
    ("REG", '\u{AE}', '\u{0}'),
    ("REG;", '\u{AE}', '\u{0}'),
    ("Racute;", '\u{154}', '\u{0}'),
    ("Rang;", '\u{27EB}', '\u{0}'),
    ("Rarr;", '\u{21A0}', '\u{0}'),
    ("Rarrtl;", '\u{2916}', '\u{0}'),
    ("Rcaron;", '\u{158}', '\u{0}'),
    ("Rcedil;", '\u{156}', '\u{0}'),
    ("Rcy;", '\u{420}', '\u{0}'),
    ("Re;", '\u{211C}', '\u{0}'),
    ("ReverseElement;", '\u{220B}', '\u{0}'),
    ("ReverseEquilibrium;", '\u{21CB}', '\u{0}'),
    ("ReverseUpEquilibrium;", '\u{296F}', '\u{0}'),
    ("Rfr;", '\u{211C}', '\u{0}'),
    ("Rho;", '\u{3A1}', '\u{0}'),
    ("RightAngleBracket;", '\u{27E9}', '\u{0}'),
    ("RightArrow;", '\u{2192}', '\u{0}'),
    ("RightArrowBar;", '\u{21E5}', '\u{0}'),
    ("RightArrowLeftArrow;", '\u{21C4}', '\u{0}'),
    ("RightCeiling;", '\u{2309}', '\u{0}'),
    ("RightDoubleBracket;", '\u{27E7}', '\u{0}'),
    ("RightDownTeeVector;", '\u{295D}', '\u{0}'),
    ("RightDownVector;", '\u{21C2}', '\u{0}'),
    ("RightDownVectorBar;", '\u{2955}', '\u{0}'),
    ("RightFloor;", '\u{230B}', '\u{0}'),
    ("RightTee;", '\u{22A2}', '\u{0}'),
    ("RightTeeArrow;", '\u{21A6}', '\u{0}'),
    ("RightTeeVector;", '\u{295B}', '\u{0}'),
    ("RightTriangle;", '\u{22B3}', '\u{0}'),
    ("RightTriangleBar;", '\u{29D0}', '\u{0}'),
    ("RightTriangleEqual;", '\u{22B5}', '\u{0}'),
    ("RightUpDownVector;", '\u{294F}', '\u{0}'),
    ("RightUpTeeVector;", '\u{295C}', '\u{0}'),
    ("RightUpVector;", '\u{21BE}', '\u{0}'),
    ("RightUpVectorBar;", '\u{2954}', '\u{0}'),
    ("RightVector;", '\u{21C0}', '\u{0}'),
    ("RightVectorBar;", '\u{2953}', '\u{0}'),
    ("Rightarrow;", '\u{21D2}', '\u{0}'),
    ("Ropf;", '\u{211D}', '\u{0}'),
    ("RoundImplies;", '\u{2970}', '\u{0}'),
    ("Rrightarrow;", '\u{21DB}', '\u{0}'),
    ("Rscr;", '\u{211B}', '\u{0}'),
    ("Rsh;", '\u{21B1}', '\u{0}'),
    ("RuleDelayed;", '\u{29F4}', '\u{0}'),
    ("SHCHcy;", '\u{429}', '\u{0}'),
    ("SHcy;", '\u{428}', '\u{0}'),
    ("SOFTcy;", '\u{42C}', '\u{0}'),
    ("Sacute;", '\u{15A}', '\u{0}'),
    ("Sc;", '\u{2ABC}', '\u{0}'),
    ("Scaron;", '\u{160}', '\u{0}'),
    ("Scedil;", '\u{15E}', '\u{0}'),
    ("Scirc;", '\u{15C}', '\u{0}'),
    ("Scy;", '\u{421}', '\u{0}'),
    ("Sfr;", '\u{1D516}', '\u{0}'),
    ("ShortDownArrow;", '\u{2193}', '\u{0}'),
    ("ShortLeftArrow;", '\u{2190}', '\u{0}'),
    ("ShortRightArrow;", '\u{2192}', '\u{0}'),
    ("ShortUpArrow;", '\u{2191}', '\u{0}'),
    ("Sigma;", '\u{3A3}', '\u{0}'),
    ("SmallCircle;", '\u{2218}', '\u{0}'),
    ("Sopf;", '\u{1D54A}', '\u{0}'),
    ("Sqrt;", '\u{221A}', '\u{0}'),
    ("Square;", '\u{25A1}', '\u{0}'),
    ("SquareIntersection;", '\u{2293}', '\u{0}'),
    ("SquareSubset;", '\u{228F}', '\u{0}'),
    ("SquareSubsetEqual;", '\u{2291}', '\u{0}'),
    ("SquareSuperset;", '\u{2290}', '\u{0}'),
    ("SquareSupersetEqual;", '\u{2292}', '\u{0}'),
    ("SquareUnion;", '\u{2294}', '\u{0}'),
    ("Sscr;", '\u{1D4AE}', '\u{0}'),
    ("Star;", '\u{22C6}', '\u{0}'),
    ("Sub;", '\u{22D0}', '\u{0}'),
    ("Subset;", '\u{22D0}', '\u{0}'),
    ("SubsetEqual;", '\u{2286}', '\u{0}'),
    ("Succeeds;", '\u{227B}', '\u{0}'),
    ("SucceedsEqual;", '\u{2AB0}', '\u{0}'),
    ("SucceedsSlantEqual;", '\u{227D}', '\u{0}'),
    ("SucceedsTilde;", '\u{227F}', '\u{0}'),
    ("SuchThat;", '\u{220B}', '\u{0}'),
    ("Sum;", '\u{2211}', '\u{0}'),
    ("Sup;", '\u{22D1}', '\u{0}'),
    ("Superset;", '\u{2283}', '\u{0}'),
    ("SupersetEqual;", '\u{2287}', '\u{0}'),
    ("Supset;", '\u{22D1}', '\u{0}'),
    ("THORN", '\u{DE}', '\u{0}'),
    ("THORN;", '\u{DE}', '\u{0}'),
    ("TRADE;", '\u{2122}', '\u{0}'),
    ("TSHcy;", '\u{40B}', '\u{0}'),
    ("TScy;", '\u{426}', '\u{0}'),
    ("Tab;", '\u{9}', '\u{0}'),
    ("Tau;", '\u{3A4}', '\u{0}'),
    ("Tcaron;", '\u{164}', '\u{0}'),
    ("Tcedil;", '\u{162}', '\u{0}'),
    ("Tcy;", '\u{422}', '\u{0}'),
    ("Tfr;", '\u{1D517}', '\u{0}'),
    ("Therefore;", '\u{2234}', '\u{0}'),
    ("Theta;", '\u{398}', '\u{0}'),
    ("ThickSpace;", '\u{205F}', '\u{200A}'),
    ("ThinSpace;", '\u{2009}', '\u{0}'),
    ("Tilde;", '\u{223C}', '\u{0}'),
    ("TildeEqual;", '\u{2243}', '\u{0}'),
    ("TildeFullEqual;", '\u{2245}', '\u{0}'),
    ("TildeTilde;", '\u{2248}', '\u{0}'),
    ("Topf;", '\u{1D54B}', '\u{0}'),
    ("TripleDot;", '\u{20DB}', '\u{0}'),
    ("Tscr;", '\u{1D4AF}', '\u{0}'),
    ("Tstrok;", '\u{166}', '\u{0}'),
    ("Uacute", '\u{DA}', '\u{0}'),
    ("Uacute;", '\u{DA}', '\u{0}'),
    ("Uarr;", '\u{219F}', '\u{0}'),
    ("Uarrocir;", '\u{2949}', '\u{0}'),
    ("Ubrcy;", '\u{40E}', '\u{0}'),
    ("Ubreve;", '\u{16C}', '\u{0}'),
    ("Ucirc", '\u{DB}', '\u{0}'),
    ("Ucirc;", '\u{DB}', '\u{0}'),
    ("Ucy;", '\u{423}', '\u{0}'),
    ("Udblac;", '\u{170}', '\u{0}'),
    ("Ufr;", '\u{1D518}', '\u{0}'),
    ("Ugrave", '\u{D9}', '\u{0}'),
    ("Ugrave;", '\u{D9}', '\u{0}'),
    ("Umacr;", '\u{16A}', '\u{0}'),
    ("UnderBar;", '_', '\u{0}'),
    ("UnderBrace;", '\u{23DF}', '\u{0}'),
    ("UnderBracket;", '\u{23B5}', '\u{0}'),
    ("UnderParenthesis;", '\u{23DD}', '\u{0}'),
    ("Union;", '\u{22C3}', '\u{0}'),
    ("UnionPlus;", '\u{228E}', '\u{0}'),
    ("Uogon;", '\u{172}', '\u{0}'),
    ("Uopf;", '\u{1D54C}', '\u{0}'),
    ("UpArrow;", '\u{2191}', '\u{0}'),
    ("UpArrowBar;", '\u{2912}', '\u{0}'),
    ("UpArrowDownArrow;", '\u{21C5}', '\u{0}'),
    ("UpDownArrow;", '\u{2195}', '\u{0}'),
    ("UpEquilibrium;", '\u{296E}', '\u{0}'),
    ("UpTee;", '\u{22A5}', '\u{0}'),
    ("UpTeeArrow;", '\u{21A5}', '\u{0}'),
    ("Uparrow;", '\u{21D1}', '\u{0}'),
    ("Updownarrow;", '\u{21D5}', '\u{0}'),
    ("UpperLeftArrow;", '\u{2196}', '\u{0}'),
    ("UpperRightArrow;", '\u{2197}', '\u{0}'),
    ("Upsi;", '\u{3D2}', '\u{0}'),
    ("Upsilon;", '\u{3A5}', '\u{0}'),
    ("Uring;", '\u{16E}', '\u{0}'),
    ("Uscr;", '\u{1D4B0}', '\u{0}'),
    ("Utilde;", '\u{168}', '\u{0}'),
    ("Uuml", '\u{DC}', '\u{0}'),
    ("Uuml;", '\u{DC}', '\u{0}'),
    ("VDash;", '\u{22AB}', '\u{0}'),
    ("Vbar;", '\u{2AEB}', '\u{0}'),
    ("Vcy;", '\u{412}', '\u{0}'),
    ("Vdash;", '\u{22A9}', '\u{0}'),
    ("Vdashl;", '\u{2AE6}', '\u{0}'),
    ("Vee;", '\u{22C1}', '\u{0}'),
    ("Verbar;", '\u{2016}', '\u{0}'),
    ("Vert;", '\u{2016}', '\u{0}'),
    ("VerticalBar;", '\u{2223}', '\u{0}'),
    ("VerticalLine;", '|', '\u{0}'),
    ("VerticalSeparator;", '\u{2758}', '\u{0}'),
    ("VerticalTilde;", '\u{2240}', '\u{0}'),
    ("VeryThinSpace;", '\u{200A}', '\u{0}'),
    ("Vfr;", '\u{1D519}', '\u{0}'),
    ("Vopf;", '\u{1D54D}', '\u{0}'),
    ("Vscr;", '\u{1D4B1}', '\u{0}'),
    ("Vvdash;", '\u{22AA}', '\u{0}'),
    ("Wcirc;", '\u{174}', '\u{0}'),
    ("Wedge;", '\u{22C0}', '\u{0}'),
    ("Wfr;", '\u{1D51A}', '\u{0}'),
    ("Wopf;", '\u{1D54E}', '\u{0}'),
    ("Wscr;", '\u{1D4B2}', '\u{0}'),
    ("Xfr;", '\u{1D51B}', '\u{0}'),
    ("Xi;", '\u{39E}', '\u{0}'),
    ("Xopf;", '\u{1D54F}', '\u{0}'),
    ("Xscr;", '\u{1D4B3}', '\u{0}'),
    ("YAcy;", '\u{42F}', '\u{0}'),
    ("YIcy;", '\u{407}', '\u{0}'),
    ("YUcy;", '\u{42E}', '\u{0}'),
    ("Yacute", '\u{DD}', '\u{0}'),
    ("Yacute;", '\u{DD}', '\u{0}'),
    ("Ycirc;", '\u{176}', '\u{0}'),
    ("Ycy;", '\u{42B}', '\u{0}'),
    ("Yfr;", '\u{1D51C}', '\u{0}'),
    ("Yopf;", '\u{1D550}', '\u{0}'),
    ("Yscr;", '\u{1D4B4}', '\u{0}'),
    ("Yuml;", '\u{178}', '\u{0}'),
    ("ZHcy;", '\u{416}', '\u{0}'),
    ("Zacute;", '\u{179}', '\u{0}'),
    ("Zcaron;", '\u{17D}', '\u{0}'),
    ("Zcy;", '\u{417}', '\u{0}'),
    ("Zdot;", '\u{17B}', '\u{0}'),
    ("ZeroWidthSpace;", '\u{200B}', '\u{0}'),
    ("Zeta;", '\u{396}', '\u{0}'),
    ("Zfr;", '\u{2128}', '\u{0}'),
    ("Zopf;", '\u{2124}', '\u{0}'),
    ("Zscr;", '\u{1D4B5}', '\u{0}'),
];

/// The names that begin with `a` to `c`. A second character of U+0000 stands
/// for none.
pub const LOWER_A_TO_C: [(&'static str, char, char); 284] = [
    ("aacute", '\u{E1}', '\u{0}'),
    ("aacute;", '\u{E1}', '\u{0}'),
    ("abreve;", '\u{103}', '\u{0}'),
    ("ac;", '\u{223E}', '\u{0}'),
    ("acE;", '\u{223E}', '\u{333}'),
    ("acd;", '\u{223F}', '\u{0}'),
    ("acirc", '\u{E2}', '\u{0}'),
    ("acirc;", '\u{E2}', '\u{0}'),
    ("acute", '\u{B4}', '\u{0}'),
    ("acute;", '\u{B4}', '\u{0}'),
    ("acy;", '\u{430}', '\u{0}'),
    ("aelig", '\u{E6}', '\u{0}'),
    ("aelig;", '\u{E6}', '\u{0}'),
    ("af;", '\u{2061}', '\u{0}'),
    ("afr;", '\u{1D51E}', '\u{0}'),
    ("agrave", '\u{E0}', '\u{0}'),
    ("agrave;", '\u{E0}', '\u{0}'),
    ("alefsym;", '\u{2135}', '\u{0}'),
    ("aleph;", '\u{2135}', '\u{0}'),
    ("alpha;", '\u{3B1}', '\u{0}'),
    ("amacr;", '\u{101}', '\u{0}'),
    ("amalg;", '\u{2A3F}', '\u{0}'),
    ("amp", '&', '\u{0}'),
    ("amp;", '&', '\u{0}'),
    ("and;", '\u{2227}', '\u{0}'),
    ("andand;", '\u{2A55}', '\u{0}'),
    ("andd;", '\u{2A5C}', '\u{0}'),
    ("andslope;", '\u{2A58}', '\u{0}'),
    ("andv;", '\u{2A5A}', '\u{0}'),
    ("ang;", '\u{2220}', '\u{0}'),
    ("ange;", '\u{29A4}', '\u{0}'),
    ("angle;", '\u{2220}', '\u{0}'),
    ("angmsd;", '\u{2221}', '\u{0}'),
    ("angmsdaa;", '\u{29A8}', '\u{0}'),
    ("angmsdab;", '\u{29A9}', '\u{0}'),
    ("angmsdac;", '\u{29AA}', '\u{0}'),
    ("angmsdad;", '\u{29AB}', '\u{0}'),
    ("angmsdae;", '\u{29AC}', '\u{0}'),
    ("angmsdaf;", '\u{29AD}', '\u{0}'),
    ("angmsdag;", '\u{29AE}', '\u{0}'),
    ("angmsdah;", '\u{29AF}', '\u{0}'),
    ("angrt;", '\u{221F}', '\u{0}'),
    ("angrtvb;", '\u{22BE}', '\u{0}'),
    ("angrtvbd;", '\u{299D}', '\u{0}'),
    ("angsph;", '\u{2222}', '\u{0}'),
    ("angst;", '\u{C5}', '\u{0}'),
    ("angzarr;", '\u{237C}', '\u{0}'),
    ("aogon;", '\u{105}', '\u{0}'),
    ("aopf;", '\u{1D552}', '\u{0}'),
    ("ap;", '\u{2248}', '\u{0}'),
    ("apE;", '\u{2A70}', '\u{0}'),
    ("apacir;", '\u{2A6F}', '\u{0}'),
    ("ape;", '\u{224A}', '\u{0}'),
    ("apid;", '\u{224B}', '\u{0}'),
    ("apos;", '\u{27}', '\u{0}'),
    ("approx;", '\u{2248}', '\u{0}'),
    ("approxeq;", '\u{224A}', '\u{0}'),
    ("aring", '\u{E5}', '\u{0}'),
    ("aring;", '\u{E5}', '\u{0}'),
    ("ascr;", '\u{1D4B6}', '\u{0}'),
    ("ast;", '*', '\u{0}'),
    ("asymp;", '\u{2248}', '\u{0}'),
    ("asympeq;", '\u{224D}', '\u{0}'),
    ("atilde", '\u{E3}', '\u{0}'),
    ("atilde;", '\u{E3}', '\u{0}'),
    ("auml", '\u{E4}', '\u{0}'),
    ("auml;", '\u{E4}', '\u{0}'),
    ("awconint;", '\u{2233}', '\u{0}'),
    ("awint;", '\u{2A11}', '\u{0}'),
    ("bNot;", '\u{2AED}', '\u{0}'),
    ("backcong;", '\u{224C}', '\u{0}'),
    ("backepsilon;", '\u{3F6}', '\u{0}'),
    ("backprime;", '\u{2035}', '\u{0}'),
    ("backsim;", '\u{223D}', '\u{0}'),
    ("backsimeq;", '\u{22CD}', '\u{0}'),
    ("barvee;", '\u{22BD}', '\u{0}'),
    ("barwed;", '\u{2305}', '\u{0}'),
    ("barwedge;", '\u{2305}', '\u{0}'),
    ("bbrk;", '\u{23B5}', '\u{0}'),
    ("bbrktbrk;", '\u{23B6}', '\u{0}'),
    ("bcong;", '\u{224C}', '\u{0}'),
    ("bcy;", '\u{431}', '\u{0}'),
    ("bdquo;", '\u{201E}', '\u{0}'),
    ("becaus;", '\u{2235}', '\u{0}'),
    ("because;", '\u{2235}', '\u{0}'),
    ("bemptyv;", '\u{29B0}', '\u{0}'),
    ("bepsi;", '\u{3F6}', '\u{0}'),
    ("bernou;", '\u{212C}', '\u{0}'),
    ("beta;", '\u{3B2}', '\u{0}'),
    ("beth;", '\u{2136}', '\u{0}'),
    ("between;", '\u{226C}', '\u{0}'),
    ("bfr;", '\u{1D51F}', '\u{0}'),
    ("bigcap;", '\u{22C2}', '\u{0}'),
    ("bigcirc;", '\u{25EF}', '\u{0}'),
    ("bigcup;", '\u{22C3}', '\u{0}'),
    ("bigodot;", '\u{2A00}', '\u{0}'),
    ("bigoplus;", '\u{2A01}', '\u{0}'),
    ("bigotimes;", '\u{2A02}', '\u{0}'),
    ("bigsqcup;", '\u{2A06}', '\u{0}'),
    ("bigstar;", '\u{2605}', '\u{0}'),
    ("bigtriangledown;", '\u{25BD}', '\u{0}'),
    ("bigtriangleup;", '\u{25B3}', '\u{0}'),
    ("biguplus;", '\u{2A04}', '\u{0}'),
    ("bigvee;", '\u{22C1}', '\u{0}'),
    ("bigwedge;", '\u{22C0}', '\u{0}'),
    ("bkarow;", '\u{290D}', '\u{0}'),
    ("blacklozenge;", '\u{29EB}', '\u{0}'),
    ("blacksquare;", '\u{25AA}', '\u{0}'),
    ("blacktriangle;", '\u{25B4}', '\u{0}'),
    ("blacktriangledown;", '\u{25BE}', '\u{0}'),
    ("blacktriangleleft;", '\u{25C2}', '\u{0}'),
    ("blacktriangleright;", '\u{25B8}', '\u{0}'),
    ("blank;", '\u{2423}', '\u{0}'),
    ("blk12;", '\u{2592}', '\u{0}'),
    ("blk14;", '\u{2591}', '\u{0}'),
    ("blk34;", '\u{2593}', '\u{0}'),
    ("block;", '\u{2588}', '\u{0}'),
    ("bne;", '=', '\u{20E5}'),
    ("bnequiv;", '\u{2261}', '\u{20E5}'),
    ("bnot;", '\u{2310}', '\u{0}'),
    ("bopf;", '\u{1D553}', '\u{0}'),
    ("bot;", '\u{22A5}', '\u{0}'),
    ("bottom;", '\u{22A5}', '\u{0}'),
    ("bowtie;", '\u{22C8}', '\u{0}'),
    ("boxDL;", '\u{2557}', '\u{0}'),
    ("boxDR;", '\u{2554}', '\u{0}'),
    ("boxDl;", '\u{2556}', '\u{0}'),
    ("boxDr;", '\u{2553}', '\u{0}'),
    ("boxH;", '\u{2550}', '\u{0}'),
    ("boxHD;", '\u{2566}', '\u{0}'),
    ("boxHU;", '\u{2569}', '\u{0}'),
    ("boxHd;", '\u{2564}', '\u{0}'),
    ("boxHu;", '\u{2567}', '\u{0}'),
    ("boxUL;", '\u{255D}', '\u{0}'),
    ("boxUR;", '\u{255A}', '\u{0}'),
    ("boxUl;", '\u{255C}', '\u{0}'),
    ("boxUr;", '\u{2559}', '\u{0}'),
    ("boxV;", '\u{2551}', '\u{0}'),
    ("boxVH;", '\u{256C}', '\u{0}'),
    ("boxVL;", '\u{2563}', '\u{0}'),
    ("boxVR;", '\u{2560}', '\u{0}'),
    ("boxVh;", '\u{256B}', '\u{0}'),
    ("boxVl;", '\u{2562}', '\u{0}'),
    ("boxVr;", '\u{255F}', '\u{0}'),
    ("boxbox;", '\u{29C9}', '\u{0}'),
    ("boxdL;", '\u{2555}', '\u{0}'),
    ("boxdR;", '\u{2552}', '\u{0}'),
    ("boxdl;", '\u{2510}', '\u{0}'),
    ("boxdr;", '\u{250C}', '\u{0}'),
    ("boxh;", '\u{2500}', '\u{0}'),
    ("boxhD;", '\u{2565}', '\u{0}'),
    ("boxhU;", '\u{2568}', '\u{0}'),
    ("boxhd;", '\u{252C}', '\u{0}'),
    ("boxhu;", '\u{2534}', '\u{0}'),
    ("boxminus;", '\u{229F}', '\u{0}'),
    ("boxplus;", '\u{229E}', '\u{0}'),
    ("boxtimes;", '\u{22A0}', '\u{0}'),
    ("boxuL;", '\u{255B}', '\u{0}'),
    ("boxuR;", '\u{2558}', '\u{0}'),
    ("boxul;", '\u{2518}', '\u{0}'),
    ("boxur;", '\u{2514}', '\u{0}'),
    ("boxv;", '\u{2502}', '\u{0}'),
    ("boxvH;", '\u{256A}', '\u{0}'),
    ("boxvL;", '\u{2561}', '\u{0}'),
    ("boxvR;", '\u{255E}', '\u{0}'),
    ("boxvh;", '\u{253C}', '\u{0}'),
    ("boxvl;", '\u{2524}', '\u{0}'),
    ("boxvr;", '\u{251C}', '\u{0}'),
    ("bprime;", '\u{2035}', '\u{0}'),
    ("breve;", '\u{2D8}', '\u{0}'),
    ("brvbar", '\u{A6}', '\u{0}'),
    ("brvbar;", '\u{A6}', '\u{0}'),
    ("bscr;", '\u{1D4B7}', '\u{0}'),
    ("bsemi;", '\u{204F}', '\u{0}'),
    ("bsim;", '\u{223D}', '\u{0}'),
    ("bsime;", '\u{22CD}', '\u{0}'),
    ("bsol;", '\u{5C}', '\u{0}'),
    ("bsolb;", '\u{29C5}', '\u{0}'),
    ("bsolhsub;", '\u{27C8}', '\u{0}'),
    ("bull;", '\u{2022}', '\u{0}'),
    ("bullet;", '\u{2022}', '\u{0}'),
    ("bump;", '\u{224E}', '\u{0}'),
    ("bumpE;", '\u{2AAE}', '\u{0}'),
    ("bumpe;", '\u{224F}', '\u{0}'),
    ("bumpeq;", '\u{224F}', '\u{0}'),
    ("cacute;", '\u{107}', '\u{0}'),
    ("cap;", '\u{2229}', '\u{0}'),
    ("capand;", '\u{2A44}', '\u{0}'),
    ("capbrcup;", '\u{2A49}', '\u{0}'),
    ("capcap;", '\u{2A4B}', '\u{0}'),
    ("capcup;", '\u{2A47}', '\u{0}'),
    ("capdot;", '\u{2A40}', '\u{0}'),
    ("caps;", '\u{2229}', '\u{FE00}'),
    ("caret;", '\u{2041}', '\u{0}'),
    ("caron;", '\u{2C7}', '\u{0}'),
    ("ccaps;", '\u{2A4D}', '\u{0}'),
    ("ccaron;", '\u{10D}', '\u{0}'),
    ("ccedil", '\u{E7}', '\u{0}'),
    ("ccedil;", '\u{E7}', '\u{0}'),
    ("ccirc;", '\u{109}', '\u{0}'),
    ("ccups;", '\u{2A4C}', '\u{0}'),
    ("ccupssm;", '\u{2A50}', '\u{0}'),
    ("cdot;", '\u{10B}', '\u{0}'),
    ("cedil", '\u{B8}', '\u{0}'),
    ("cedil;", '\u{B8}', '\u{0}'),
    ("cemptyv;", '\u{29B2}', '\u{0}'),
    ("cent", '\u{A2}', '\u{0}'),
    ("cent;", '\u{A2}', '\u{0}'),
    ("centerdot;", '\u{B7}', '\u{0}'),
    ("cfr;", '\u{1D520}', '\u{0}'),
    ("chcy;", '\u{447}', '\u{0}'),
    ("check;", '\u{2713}', '\u{0}'),
    ("checkmark;", '\u{2713}', '\u{0}'),
    ("chi;", '\u{3C7}', '\u{0}'),
    ("cir;", '\u{25CB}', '\u{0}'),
    ("cirE;", '\u{29C3}', '\u{0}'),
    ("circ;", '\u{2C6}', '\u{0}'),
    ("circeq;", '\u{2257}', '\u{0}'),
    ("circlearrowleft;", '\u{21BA}', '\u{0}'),
    ("circlearrowright;", '\u{21BB}', '\u{0}'),
    ("circledR;", '\u{AE}', '\u{0}'),
    ("circledS;", '\u{24C8}', '\u{0}'),
    ("circledast;", '\u{229B}', '\u{0}'),
    ("circledcirc;", '\u{229A}', '\u{0}'),
    ("circleddash;", '\u{229D}', '\u{0}'),
    ("cire;", '\u{2257}', '\u{0}'),
    ("cirfnint;", '\u{2A10}', '\u{0}'),
    ("cirmid;", '\u{2AEF}', '\u{0}'),
    ("cirscir;", '\u{29C2}', '\u{0}'),
    ("clubs;", '\u{2663}', '\u{0}'),
    ("clubsuit;", '\u{2663}', '\u{0}'),
    ("colon;", ':', '\u{0}'),
    ("colone;", '\u{2254}', '\u{0}'),
    ("coloneq;", '\u{2254}', '\u{0}'),
    ("comma;", ',', '\u{0}'),
    ("commat;", '@', '\u{0}'),
    ("comp;", '\u{2201}', '\u{0}'),
    ("compfn;", '\u{2218}', '\u{0}'),
    ("complement;", '\u{2201}', '\u{0}'),
    ("complexes;", '\u{2102}', '\u{0}'),
    ("cong;", '\u{2245}', '\u{0}'),
    ("congdot;", '\u{2A6D}', '\u{0}'),
    ("conint;", '\u{222E}', '\u{0}'),
    ("copf;", '\u{1D554}', '\u{0}'),
    ("coprod;", '\u{2210}', '\u{0}'),
    ("copy", '\u{A9}', '\u{0}'),
    ("copy;", '\u{A9}', '\u{0}'),
    ("copysr;", '\u{2117}', '\u{0}'),
    ("crarr;", '\u{21B5}', '\u{0}'),
    ("cross;", '\u{2717}', '\u{0}'),
    ("cscr;", '\u{1D4B8}', '\u{0}'),
    ("csub;", '\u{2ACF}', '\u{0}'),
    ("csube;", '\u{2AD1}', '\u{0}'),
    ("csup;", '\u{2AD0}', '\u{0}'),
    ("csupe;", '\u{2AD2}', '\u{0}'),
    ("ctdot;", '\u{22EF}', '\u{0}'),
    ("cudarrl;", '\u{2938}', '\u{0}'),
    ("cudarrr;", '\u{2935}', '\u{0}'),
    ("cuepr;", '\u{22DE}', '\u{0}'),
    ("cuesc;", '\u{22DF}', '\u{0}'),
    ("cularr;", '\u{21B6}', '\u{0}'),
    ("cularrp;", '\u{293D}', '\u{0}'),
    ("cup;", '\u{222A}', '\u{0}'),
    ("cupbrcap;", '\u{2A48}', '\u{0}'),
    ("cupcap;", '\u{2A46}', '\u{0}'),
    ("cupcup;", '\u{2A4A}', '\u{0}'),
    ("cupdot;", '\u{228D}', '\u{0}'),
    ("cupor;", '\u{2A45}', '\u{0}'),
    ("cups;", '\u{222A}', '\u{FE00}'),
    ("curarr;", '\u{21B7}', '\u{0}'),
    ("curarrm;", '\u{293C}', '\u{0}'),
    ("curlyeqprec;", '\u{22DE}', '\u{0}'),
    ("curlyeqsucc;", '\u{22DF}', '\u{0}'),
    ("curlyvee;", '\u{22CE}', '\u{0}'),
    ("curlywedge;", '\u{22CF}', '\u{0}'),
    ("curren", '\u{A4}', '\u{0}'),
    ("curren;", '\u{A4}', '\u{0}'),
    ("curvearrowleft;", '\u{21B6}', '\u{0}'),
    ("curvearrowright;", '\u{21B7}', '\u{0}'),
    ("cuvee;", '\u{22CE}', '\u{0}'),
    ("cuwed;", '\u{22CF}', '\u{0}'),
    ("cwconint;", '\u{2232}', '\u{0}'),
    ("cwint;", '\u{2231}', '\u{0}'),
    ("cylcty;", '\u{232D}', '\u{0}'),
];

/// The names that begin with `d` to `k`. A second character of U+0000 stands
/// for none.
pub const LOWER_D_TO_K: [(&'static str, char, char); 334] = [
    ("dArr;", '\u{21D3}', '\u{0}'),
    ("dHar;", '\u{2965}', '\u{0}'),
    ("dagger;", '\u{2020}', '\u{0}'),
    ("daleth;", '\u{2138}', '\u{0}'),
    ("darr;", '\u{2193}', '\u{0}'),
    ("dash;", '\u{2010}', '\u{0}'),
    ("dashv;", '\u{22A3}', '\u{0}'),
    ("dbkarow;", '\u{290F}', '\u{0}'),
    ("dblac;", '\u{2DD}', '\u{0}'),
    ("dcaron;", '\u{10F}', '\u{0}'),
    ("dcy;", '\u{434}', '\u{0}'),
    ("dd;", '\u{2146}', '\u{0}'),
    ("ddagger;", '\u{2021}', '\u{0}'),
    ("ddarr;", '\u{21CA}', '\u{0}'),
    ("ddotseq;", '\u{2A77}', '\u{0}'),
    ("deg", '\u{B0}', '\u{0}'),
    ("deg;", '\u{B0}', '\u{0}'),
    ("delta;", '\u{3B4}', '\u{0}'),
    ("demptyv;", '\u{29B1}', '\u{0}'),
    ("dfisht;", '\u{297F}', '\u{0}'),
    ("dfr;", '\u{1D521}', '\u{0}'),
    ("dharl;", '\u{21C3}', '\u{0}'),
    ("dharr;", '\u{21C2}', '\u{0}'),
    ("diam;", '\u{22C4}', '\u{0}'),
    ("diamond;", '\u{22C4}', '\u{0}'),
    ("diamondsuit;", '\u{2666}', '\u{0}'),
    ("diams;", '\u{2666}', '\u{0}'),
    ("die;", '\u{A8}', '\u{0}'),
    ("digamma;", '\u{3DD}', '\u{0}'),
    ("disin;", '\u{22F2}', '\u{0}'),
    ("div;", '\u{F7}', '\u{0}'),
    ("divide", '\u{F7}', '\u{0}'),
    ("divide;", '\u{F7}', '\u{0}'),
    ("divideontimes;", '\u{22C7}', '\u{0}'),
    ("divonx;", '\u{22C7}', '\u{0}'),
    ("djcy;", '\u{452}', '\u{0}'),
    ("dlcorn;", '\u{231E}', '\u{0}'),
    ("dlcrop;", '\u{230D}', '\u{0}'),
    ("dollar;", '$', '\u{0}'),
    ("dopf;", '\u{1D555}', '\u{0}'),
    ("dot;", '\u{2D9}', '\u{0}'),
    ("doteq;", '\u{2250}', '\u{0}'),
    ("doteqdot;", '\u{2251}', '\u{0}'),
    ("dotminus;", '\u{2238}', '\u{0}'),
    ("dotplus;", '\u{2214}', '\u{0}'),
    ("dotsquare;", '\u{22A1}', '\u{0}'),
    ("doublebarwedge;", '\u{2306}', '\u{0}'),
    ("downarrow;", '\u{2193}', '\u{0}'),
    ("downdownarrows;", '\u{21CA}', '\u{0}'),
    ("downharpoonleft;", '\u{21C3}', '\u{0}'),
    ("downharpoonright;", '\u{21C2}', '\u{0}'),
    ("drbkarow;", '\u{2910}', '\u{0}'),
    ("drcorn;", '\u{231F}', '\u{0}'),
    ("drcrop;", '\u{230C}', '\u{0}'),
    ("dscr;", '\u{1D4B9}', '\u{0}'),
    ("dscy;", '\u{455}', '\u{0}'),
    ("dsol;", '\u{29F6}', '\u{0}'),
    ("dstrok;", '\u{111}', '\u{0}'),
    ("dtdot;", '\u{22F1}', '\u{0}'),
    ("dtri;", '\u{25BF}', '\u{0}'),
    ("dtrif;", '\u{25BE}', '\u{0}'),
    ("duarr;", '\u{21F5}', '\u{0}'),
    ("duhar;", '\u{296F}', '\u{0}'),
    ("dwangle;", '\u{29A6}', '\u{0}'),
    ("dzcy;", '\u{45F}', '\u{0}'),
    ("dzigrarr;", '\u{27FF}', '\u{0}'),
    ("eDDot;", '\u{2A77}', '\u{0}'),
    ("eDot;", '\u{2251}', '\u{0}'),
    ("eacute", '\u{E9}', '\u{0}'),
    ("eacute;", '\u{E9}', '\u{0}'),
    ("easter;", '\u{2A6E}', '\u{0}'),
    ("ecaron;", '\u{11B}', '\u{0}'),
    ("ecir;", '\u{2256}', '\u{0}'),
    ("ecirc", '\u{EA}', '\u{0}'),
    ("ecirc;", '\u{EA}', '\u{0}'),
    ("ecolon;", '\u{2255}', '\u{0}'),
    ("ecy;", '\u{44D}', '\u{0}'),
    ("edot;", '\u{117}', '\u{0}'),
    ("ee;", '\u{2147}', '\u{0}'),
    ("efDot;", '\u{2252}', '\u{0}'),
    ("efr;", '\u{1D522}', '\u{0}'),
    ("eg;", '\u{2A9A}', '\u{0}'),
    ("egrave", '\u{E8}', '\u{0}'),
    ("egrave;", '\u{E8}', '\u{0}'),
    ("egs;", '\u{2A96}', '\u{0}'),
    ("egsdot;", '\u{2A98}', '\u{0}'),
    ("el;", '\u{2A99}', '\u{0}'),
    ("elinters;", '\u{23E7}', '\u{0}'),
    ("ell;", '\u{2113}', '\u{0}'),
    ("els;", '\u{2A95}', '\u{0}'),
    ("elsdot;", '\u{2A97}', '\u{0}'),
    ("emacr;", '\u{113}', '\u{0}'),
    ("empty;", '\u{2205}', '\u{0}'),
    ("emptyset;", '\u{2205}', '\u{0}'),
    ("emptyv;", '\u{2205}', '\u{0}'),
    ("emsp13;", '\u{2004}', '\u{0}'),
    ("emsp14;", '\u{2005}', '\u{0}'),
    ("emsp;", '\u{2003}', '\u{0}'),
    ("eng;", '\u{14B}', '\u{0}'),
    ("ensp;", '\u{2002}', '\u{0}'),
    ("eogon;", '\u{119}', '\u{0}'),
    ("eopf;", '\u{1D556}', '\u{0}'),
    ("epar;", '\u{22D5}', '\u{0}'),
    ("eparsl;", '\u{29E3}', '\u{0}'),
    ("eplus;", '\u{2A71}', '\u{0}'),
    ("epsi;", '\u{3B5}', '\u{0}'),
    ("epsilon;", '\u{3B5}', '\u{0}'),
    ("epsiv;", '\u{3F5}', '\u{0}'),
    ("eqcirc;", '\u{2256}', '\u{0}'),
    ("eqcolon;", '\u{2255}', '\u{0}'),
    ("eqsim;", '\u{2242}', '\u{0}'),
    ("eqslantgtr;", '\u{2A96}', '\u{0}'),
    ("eqslantless;", '\u{2A95}', '\u{0}'),
    ("equals;", '=', '\u{0}'),
    ("equest;", '\u{225F}', '\u{0}'),
    ("equiv;", '\u{2261}', '\u{0}'),
    ("equivDD;", '\u{2A78}', '\u{0}'),
    ("eqvparsl;", '\u{29E5}', '\u{0}'),
    ("erDot;", '\u{2253}', '\u{0}'),
    ("erarr;", '\u{2971}', '\u{0}'),
    ("escr;", '\u{212F}', '\u{0}'),
    ("esdot;", '\u{2250}', '\u{0}'),
    ("esim;", '\u{2242}', '\u{0}'),
    ("eta;", '\u{3B7}', '\u{0}'),
    ("eth", '\u{F0}', '\u{0}'),
    ("eth;", '\u{F0}', '\u{0}'),
    ("euml", '\u{EB}', '\u{0}'),
    ("euml;", '\u{EB}', '\u{0}'),
    ("euro;", '\u{20AC}', '\u{0}'),
    ("excl;", '!', '\u{0}'),
    ("exist;", '\u{2203}', '\u{0}'),
    ("expectation;", '\u{2130}', '\u{0}'),
    ("exponentiale;", '\u{2147}', '\u{0}'),
    ("fallingdotseq;", '\u{2252}', '\u{0}'),
    ("fcy;", '\u{444}', '\u{0}'),
    ("female;", '\u{2640}', '\u{0}'),
    ("ffilig;", '\u{FB03}', '\u{0}'),
    ("fflig;", '\u{FB00}', '\u{0}'),
    ("ffllig;", '\u{FB04}', '\u{0}'),
    ("ffr;", '\u{1D523}', '\u{0}'),
    ("filig;", '\u{FB01}', '\u{0}'),
    ("fjlig;", 'f', 'j'),
    ("flat;", '\u{266D}', '\u{0}'),
    ("fllig;", '\u{FB02}', '\u{0}'),
    ("fltns;", '\u{25B1}', '\u{0}'),
    ("fnof;", '\u{192}', '\u{0}'),
    ("fopf;", '\u{1D557}', '\u{0}'),
    ("forall;", '\u{2200}', '\u{0}'),
    ("fork;", '\u{22D4}', '\u{0}'),
    ("forkv;", '\u{2AD9}', '\u{0}'),
    ("fpartint;", '\u{2A0D}', '\u{0}'),
    ("frac12", '\u{BD}', '\u{0}'),
    ("frac12;", '\u{BD}', '\u{0}'),
    ("frac13;", '\u{2153}', '\u{0}'),
    ("frac14", '\u{BC}', '\u{0}'),
    ("frac14;", '\u{BC}', '\u{0}'),
    ("frac15;", '\u{2155}', '\u{0}'),
    ("frac16;", '\u{2159}', '\u{0}'),
    ("frac18;", '\u{215B}', '\u{0}'),
    ("frac23;", '\u{2154}', '\u{0}'),
    ("frac25;", '\u{2156}', '\u{0}'),
    ("frac34", '\u{BE}', '\u{0}'),
    ("frac34;", '\u{BE}', '\u{0}'),
    ("frac35;", '\u{2157}', '\u{0}'),
    ("frac38;", '\u{215C}', '\u{0}'),
    ("frac45;", '\u{2158}', '\u{0}'),
    ("frac56;", '\u{215A}', '\u{0}'),
    ("frac58;", '\u{215D}', '\u{0}'),
    ("frac78;", '\u{215E}', '\u{0}'),
    ("frasl;", '\u{2044}', '\u{0}'),
    ("frown;", '\u{2322}', '\u{0}'),
    ("fscr;", '\u{1D4BB}', '\u{0}'),
    ("gE;", '\u{2267}', '\u{0}'),
    ("gEl;", '\u{2A8C}', '\u{0}'),
    ("gacute;", '\u{1F5}', '\u{0}'),
    ("gamma;", '\u{3B3}', '\u{0}'),
    ("gammad;", '\u{3DD}', '\u{0}'),
    ("gap;", '\u{2A86}', '\u{0}'),
    ("gbreve;", '\u{11F}', '\u{0}'),
    ("gcirc;", '\u{11D}', '\u{0}'),
    ("gcy;", '\u{433}', '\u{0}'),
    ("gdot;", '\u{121}', '\u{0}'),
    ("ge;", '\u{2265}', '\u{0}'),
    ("gel;", '\u{22DB}', '\u{0}'),
    ("geq;", '\u{2265}', '\u{0}'),
    ("geqq;", '\u{2267}', '\u{0}'),
    ("geqslant;", '\u{2A7E}', '\u{0}'),
    ("ges;", '\u{2A7E}', '\u{0}'),
    ("gescc;", '\u{2AA9}', '\u{0}'),
    ("gesdot;", '\u{2A80}', '\u{0}'),
    ("gesdoto;", '\u{2A82}', '\u{0}'),
    ("gesdotol;", '\u{2A84}', '\u{0}'),
    ("gesl;", '\u{22DB}', '\u{FE00}'),
    ("gesles;", '\u{2A94}', '\u{0}'),
    ("gfr;", '\u{1D524}', '\u{0}'),
    ("gg;", '\u{226B}', '\u{0}'),
    ("ggg;", '\u{22D9}', '\u{0}'),
    ("gimel;", '\u{2137}', '\u{0}'),
    ("gjcy;", '\u{453}', '\u{0}'),
    ("gl;", '\u{2277}', '\u{0}'),
    ("glE;", '\u{2A92}', '\u{0}'),
    ("gla;", '\u{2AA5}', '\u{0}'),
    ("glj;", '\u{2AA4}', '\u{0}'),
    ("gnE;", '\u{2269}', '\u{0}'),
    ("gnap;", '\u{2A8A}', '\u{0}'),
    ("gnapprox;", '\u{2A8A}', '\u{0}'),
    ("gne;", '\u{2A88}', '\u{0}'),
    ("gneq;", '\u{2A88}', '\u{0}'),
    ("gneqq;", '\u{2269}', '\u{0}'),
    ("gnsim;", '\u{22E7}', '\u{0}'),
    ("gopf;", '\u{1D558}', '\u{0}'),
    ("grave;", '`', '\u{0}'),
    ("gscr;", '\u{210A}', '\u{0}'),
    ("gsim;", '\u{2273}', '\u{0}'),
    ("gsime;", '\u{2A8E}', '\u{0}'),
    ("gsiml;", '\u{2A90}', '\u{0}'),
    ("gt", '>', '\u{0}'),
    ("gt;", '>', '\u{0}'),
    ("gtcc;", '\u{2AA7}', '\u{0}'),
    ("gtcir;", '\u{2A7A}', '\u{0}'),
    ("gtdot;", '\u{22D7}', '\u{0}'),
    ("gtlPar;", '\u{2995}', '\u{0}'),
    ("gtquest;", '\u{2A7C}', '\u{0}'),
    ("gtrapprox;", '\u{2A86}', '\u{0}'),
    ("gtrarr;", '\u{2978}', '\u{0}'),
    ("gtrdot;", '\u{22D7}', '\u{0}'),
    ("gtreqless;", '\u{22DB}', '\u{0}'),
    ("gtreqqless;", '\u{2A8C}', '\u{0}'),
    ("gtrless;", '\u{2277}', '\u{0}'),
    ("gtrsim;", '\u{2273}', '\u{0}'),
    ("gvertneqq;", '\u{2269}', '\u{FE00}'),
    ("gvnE;", '\u{2269}', '\u{FE00}'),
    ("hArr;", '\u{21D4}', '\u{0}'),
    ("hairsp;", '\u{200A}', '\u{0}'),
    ("half;", '\u{BD}', '\u{0}'),
    ("hamilt;", '\u{210B}', '\u{0}'),
    ("hardcy;", '\u{44A}', '\u{0}'),
    ("harr;", '\u{2194}', '\u{0}'),
    ("harrcir;", '\u{2948}', '\u{0}'),
    ("harrw;", '\u{21AD}', '\u{0}'),
    ("hbar;", '\u{210F}', '\u{0}'),
    ("hcirc;", '\u{125}', '\u{0}'),
    ("hearts;", '\u{2665}', '\u{0}'),
    ("heartsuit;", '\u{2665}', '\u{0}'),
    ("hellip;", '\u{2026}', '\u{0}'),
    ("hercon;", '\u{22B9}', '\u{0}'),
    ("hfr;", '\u{1D525}', '\u{0}'),
    ("hksearow;", '\u{2925}', '\u{0}'),
    ("hkswarow;", '\u{2926}', '\u{0}'),
    ("hoarr;", '\u{21FF}', '\u{0}'),
    ("homtht;", '\u{223B}', '\u{0}'),
    ("hookleftarrow;", '\u{21A9}', '\u{0}'),
    ("hookrightarrow;", '\u{21AA}', '\u{0}'),
    ("hopf;", '\u{1D559}', '\u{0}'),
    ("horbar;", '\u{2015}', '\u{0}'),
    ("hscr;", '\u{1D4BD}', '\u{0}'),
    ("hslash;", '\u{210F}', '\u{0}'),
    ("hstrok;", '\u{127}', '\u{0}'),
    ("hybull;", '\u{2043}', '\u{0}'),
    ("hyphen;", '\u{2010}', '\u{0}'),
    ("iacute", '\u{ED}', '\u{0}'),
    ("iacute;", '\u{ED}', '\u{0}'),
    ("ic;", '\u{2063}', '\u{0}'),
    ("icirc", '\u{EE}', '\u{0}'),
    ("icirc;", '\u{EE}', '\u{0}'),
    ("icy;", '\u{438}', '\u{0}'),
    ("iecy;", '\u{435}', '\u{0}'),
    ("iexcl", '\u{A1}', '\u{0}'),
    ("iexcl;", '\u{A1}', '\u{0}'),
    ("iff;", '\u{21D4}', '\u{0}'),
    ("ifr;", '\u{1D526}', '\u{0}'),
    ("igrave", '\u{EC}', '\u{0}'),
    ("igrave;", '\u{EC}', '\u{0}'),
    ("ii;", '\u{2148}', '\u{0}'),
    ("iiiint;", '\u{2A0C}', '\u{0}'),
    ("iiint;", '\u{222D}', '\u{0}'),
    ("iinfin;", '\u{29DC}', '\u{0}'),
    ("iiota;", '\u{2129}', '\u{0}'),
    ("ijlig;", '\u{133}', '\u{0}'),
    ("imacr;", '\u{12B}', '\u{0}'),
    ("image;", '\u{2111}', '\u{0}'),
    ("imagline;", '\u{2110}', '\u{0}'),
    ("imagpart;", '\u{2111}', '\u{0}'),
    ("imath;", '\u{131}', '\u{0}'),
    ("imof;", '\u{22B7}', '\u{0}'),
    ("imped;", '\u{1B5}', '\u{0}'),
    ("in;", '\u{2208}', '\u{0}'),
    ("incare;", '\u{2105}', '\u{0}'),
    ("infin;", '\u{221E}', '\u{0}'),
    ("infintie;", '\u{29DD}', '\u{0}'),
    ("inodot;", '\u{131}', '\u{0}'),
    ("int;", '\u{222B}', '\u{0}'),
    ("intcal;", '\u{22BA}', '\u{0}'),
    ("integers;", '\u{2124}', '\u{0}'),
    ("intercal;", '\u{22BA}', '\u{0}'),
    ("intlarhk;", '\u{2A17}', '\u{0}'),
    ("intprod;", '\u{2A3C}', '\u{0}'),
    ("iocy;", '\u{451}', '\u{0}'),
    ("iogon;", '\u{12F}', '\u{0}'),
    ("iopf;", '\u{1D55A}', '\u{0}'),
    ("iota;", '\u{3B9}', '\u{0}'),
    ("iprod;", '\u{2A3C}', '\u{0}'),
    ("iquest", '\u{BF}', '\u{0}'),
    ("iquest;", '\u{BF}', '\u{0}'),
    ("iscr;", '\u{1D4BE}', '\u{0}'),
    ("isin;", '\u{2208}', '\u{0}'),
    ("isinE;", '\u{22F9}', '\u{0}'),
    ("isindot;", '\u{22F5}', '\u{0}'),
    ("isins;", '\u{22F4}', '\u{0}'),
    ("isinsv;", '\u{22F3}', '\u{0}'),
    ("isinv;", '\u{2208}', '\u{0}'),
    ("it;", '\u{2062}', '\u{0}'),
    ("itilde;", '\u{129}', '\u{0}'),
    ("iukcy;", '\u{456}', '\u{0}'),
    ("iuml", '\u{EF}', '\u{0}'),
    ("iuml;", '\u{EF}', '\u{0}'),
    ("jcirc;", '\u{135}', '\u{0}'),
    ("jcy;", '\u{439}', '\u{0}'),
    ("jfr;", '\u{1D527}', '\u{0}'),
    ("jmath;", '\u{237}', '\u{0}'),
    ("jopf;", '\u{1D55B}', '\u{0}'),
    ("jscr;", '\u{1D4BF}', '\u{0}'),
    ("jsercy;", '\u{458}', '\u{0}'),
    ("jukcy;", '\u{454}', '\u{0}'),
    ("kappa;", '\u{3BA}', '\u{0}'),
    ("kappav;", '\u{3F0}', '\u{0}'),
    ("kcedil;", '\u{137}', '\u{0}'),
    ("kcy;", '\u{43A}', '\u{0}'),
    ("kfr;", '\u{1D528}', '\u{0}'),
    ("kgreen;", '\u{138}', '\u{0}'),
    ("khcy;", '\u{445}', '\u{0}'),
    ("kjcy;", '\u{45C}', '\u{0}'),
    ("kopf;", '\u{1D55C}', '\u{0}'),
    ("kscr;", '\u{1D4C0}', '\u{0}'),
];

/// The names that begin with `l` to `n`. A second character of U+0000 stands
/// for none.
pub const LOWER_L_TO_N: [(&'static str, char, char); 362] = [
    ("lAarr;", '\u{21DA}', '\u{0}'),
    ("lArr;", '\u{21D0}', '\u{0}'),
    ("lAtail;", '\u{291B}', '\u{0}'),
    ("lBarr;", '\u{290E}', '\u{0}'),
    ("lE;", '\u{2266}', '\u{0}'),
    ("lEg;", '\u{2A8B}', '\u{0}'),
    ("lHar;", '\u{2962}', '\u{0}'),
    ("lacute;", '\u{13A}', '\u{0}'),
    ("laemptyv;", '\u{29B4}', '\u{0}'),
    ("lagran;", '\u{2112}', '\u{0}'),
    ("lambda;", '\u{3BB}', '\u{0}'),
    ("lang;", '\u{27E8}', '\u{0}'),
    ("langd;", '\u{2991}', '\u{0}'),
    ("langle;", '\u{27E8}', '\u{0}'),
    ("lap;", '\u{2A85}', '\u{0}'),
    ("laquo", '\u{AB}', '\u{0}'),
    ("laquo;", '\u{AB}', '\u{0}'),
    ("larr;", '\u{2190}', '\u{0}'),
    ("larrb;", '\u{21E4}', '\u{0}'),
    ("larrbfs;", '\u{291F}', '\u{0}'),
    ("larrfs;", '\u{291D}', '\u{0}'),
    ("larrhk;", '\u{21A9}', '\u{0}'),
    ("larrlp;", '\u{21AB}', '\u{0}'),
    ("larrpl;", '\u{2939}', '\u{0}'),
    ("larrsim;", '\u{2973}', '\u{0}'),
    ("larrtl;", '\u{21A2}', '\u{0}'),
    ("lat;", '\u{2AAB}', '\u{0}'),
    ("latail;", '\u{2919}', '\u{0}'),
    ("late;", '\u{2AAD}', '\u{0}'),
    ("lates;", '\u{2AAD}', '\u{FE00}'),
    ("lbarr;", '\u{290C}', '\u{0}'),
    ("lbbrk;", '\u{2772}', '\u{0}'),
    ("lbrace;", '{', '\u{0}'),
    ("lbrack;", '[', '\u{0}'),
    ("lbrke;", '\u{298B}', '\u{0}'),
    ("lbrksld;", '\u{298F}', '\u{0}'),
    ("lbrkslu;", '\u{298D}', '\u{0}'),
    ("lcaron;", '\u{13E}', '\u{0}'),
    ("lcedil;", '\u{13C}', '\u{0}'),
    ("lceil;", '\u{2308}', '\u{0}'),
    ("lcub;", '{', '\u{0}'),
    ("lcy;", '\u{43B}', '\u{0}'),
    ("ldca;", '\u{2936}', '\u{0}'),
    ("ldquo;", '\u{201C}', '\u{0}'),
    ("ldquor;", '\u{201E}', '\u{0}'),
    ("ldrdhar;", '\u{2967}', '\u{0}'),
    ("ldrushar;", '\u{294B}', '\u{0}'),
    ("ldsh;", '\u{21B2}', '\u{0}'),
    ("le;", '\u{2264}', '\u{0}'),
    ("leftarrow;", '\u{2190}', '\u{0}'),
    ("leftarrowtail;", '\u{21A2}', '\u{0}'),
    ("leftharpoondown;", '\u{21BD}', '\u{0}'),
    ("leftharpoonup;", '\u{21BC}', '\u{0}'),
    ("leftleftarrows;", '\u{21C7}', '\u{0}'),
    ("leftrightarrow;", '\u{2194}', '\u{0}'),
    ("leftrightarrows;", '\u{21C6}', '\u{0}'),
    ("leftrightharpoons;", '\u{21CB}', '\u{0}'),
    ("leftrightsquigarrow;", '\u{21AD}', '\u{0}'),
    ("leftthreetimes;", '\u{22CB}', '\u{0}'),
    ("leg;", '\u{22DA}', '\u{0}'),
    ("leq;", '\u{2264}', '\u{0}'),
    ("leqq;", '\u{2266}', '\u{0}'),
    ("leqslant;", '\u{2A7D}', '\u{0}'),
    ("les;", '\u{2A7D}', '\u{0}'),
    ("lescc;", '\u{2AA8}', '\u{0}'),
    ("lesdot;", '\u{2A7F}', '\u{0}'),
    ("lesdoto;", '\u{2A81}', '\u{0}'),
    ("lesdotor;", '\u{2A83}', '\u{0}'),
    ("lesg;", '\u{22DA}', '\u{FE00}'),
    ("lesges;", '\u{2A93}', '\u{0}'),
    ("lessapprox;", '\u{2A85}', '\u{0}'),
    ("lessdot;", '\u{22D6}', '\u{0}'),
    ("lesseqgtr;", '\u{22DA}', '\u{0}'),
    ("lesseqqgtr;", '\u{2A8B}', '\u{0}'),
    ("lessgtr;", '\u{2276}', '\u{0}'),
    ("lesssim;", '\u{2272}', '\u{0}'),
    ("lfisht;", '\u{297C}', '\u{0}'),
    ("lfloor;", '\u{230A}', '\u{0}'),
    ("lfr;", '\u{1D529}', '\u{0}'),
    ("lg;", '\u{2276}', '\u{0}'),
    ("lgE;", '\u{2A91}', '\u{0}'),
    ("lhard;", '\u{21BD}', '\u{0}'),
    ("lharu;", '\u{21BC}', '\u{0}'),
    ("lharul;", '\u{296A}', '\u{0}'),
    ("lhblk;", '\u{2584}', '\u{0}'),
    ("ljcy;", '\u{459}', '\u{0}'),
    ("ll;", '\u{226A}', '\u{0}'),
    ("llarr;", '\u{21C7}', '\u{0}'),
    ("llcorner;", '\u{231E}', '\u{0}'),
    ("llhard;", '\u{296B}', '\u{0}'),
    ("lltri;", '\u{25FA}', '\u{0}'),
    ("lmidot;", '\u{140}', '\u{0}'),
    ("lmoust;", '\u{23B0}', '\u{0}'),
    ("lmoustache;", '\u{23B0}', '\u{0}'),
    ("lnE;", '\u{2268}', '\u{0}'),
    ("lnap;", '\u{2A89}', '\u{0}'),
    ("lnapprox;", '\u{2A89}', '\u{0}'),
    ("lne;", '\u{2A87}', '\u{0}'),
    ("lneq;", '\u{2A87}', '\u{0}'),
    ("lneqq;", '\u{2268}', '\u{0}'),
    ("lnsim;", '\u{22E6}', '\u{0}'),
    ("loang;", '\u{27EC}', '\u{0}'),
    ("loarr;", '\u{21FD}', '\u{0}'),
    ("lobrk;", '\u{27E6}', '\u{0}'),
    ("longleftarrow;", '\u{27F5}', '\u{0}'),
    ("longleftrightarrow;", '\u{27F7}', '\u{0}'),
    ("longmapsto;", '\u{27FC}', '\u{0}'),
    ("longrightarrow;", '\u{27F6}', '\u{0}'),
    ("looparrowleft;", '\u{21AB}', '\u{0}'),
    ("looparrowright;", '\u{21AC}', '\u{0}'),
    ("lopar;", '\u{2985}', '\u{0}'),
    ("lopf;", '\u{1D55D}', '\u{0}'),
    ("loplus;", '\u{2A2D}', '\u{0}'),
    ("lotimes;", '\u{2A34}', '\u{0}'),
    ("lowast;", '\u{2217}', '\u{0}'),
    ("lowbar;", '_', '\u{0}'),
    ("loz;", '\u{25CA}', '\u{0}'),
    ("lozenge;", '\u{25CA}', '\u{0}'),
    ("lozf;", '\u{29EB}', '\u{0}'),
    ("lpar;", '(', '\u{0}'),
    ("lparlt;", '\u{2993}', '\u{0}'),
    ("lrarr;", '\u{21C6}', '\u{0}'),
    ("lrcorner;", '\u{231F}', '\u{0}'),
    ("lrhar;", '\u{21CB}', '\u{0}'),
    ("lrhard;", '\u{296D}', '\u{0}'),
    ("lrm;", '\u{200E}', '\u{0}'),
    ("lrtri;", '\u{22BF}', '\u{0}'),
    ("lsaquo;", '\u{2039}', '\u{0}'),
    ("lscr;", '\u{1D4C1}', '\u{0}'),
    ("lsh;", '\u{21B0}', '\u{0}'),
    ("lsim;", '\u{2272}', '\u{0}'),
    ("lsime;", '\u{2A8D}', '\u{0}'),
    ("lsimg;", '\u{2A8F}', '\u{0}'),
    ("lsqb;", '[', '\u{0}'),
    ("lsquo;", '\u{2018}', '\u{0}'),
    ("lsquor;", '\u{201A}', '\u{0}'),
    ("lstrok;", '\u{142}', '\u{0}'),
    ("lt", '<', '\u{0}'),
    ("lt;", '<', '\u{0}'),
    ("ltcc;", '\u{2AA6}', '\u{0}'),
    ("ltcir;", '\u{2A79}', '\u{0}'),
    ("ltdot;", '\u{22D6}', '\u{0}'),
    ("lthree;", '\u{22CB}', '\u{0}'),
    ("ltimes;", '\u{22C9}', '\u{0}'),
    ("ltlarr;", '\u{2976}', '\u{0}'),
    ("ltquest;", '\u{2A7B}', '\u{0}'),
    ("ltrPar;", '\u{2996}', '\u{0}'),
    ("ltri;", '\u{25C3}', '\u{0}'),
    ("ltrie;", '\u{22B4}', '\u{0}'),
    ("ltrif;", '\u{25C2}', '\u{0}'),
    ("lurdshar;", '\u{294A}', '\u{0}'),
    ("luruhar;", '\u{2966}', '\u{0}'),
    ("lvertneqq;", '\u{2268}', '\u{FE00}'),
    ("lvnE;", '\u{2268}', '\u{FE00}'),
    ("mDDot;", '\u{223A}', '\u{0}'),
    ("macr", '\u{AF}', '\u{0}'),
    ("macr;", '\u{AF}', '\u{0}'),
    ("male;", '\u{2642}', '\u{0}'),
    ("malt;", '\u{2720}', '\u{0}'),
    ("maltese;", '\u{2720}', '\u{0}'),
    ("map;", '\u{21A6}', '\u{0}'),
    ("mapsto;", '\u{21A6}', '\u{0}'),
    ("mapstodown;", '\u{21A7}', '\u{0}'),
    ("mapstoleft;", '\u{21A4}', '\u{0}'),
    ("mapstoup;", '\u{21A5}', '\u{0}'),
    ("marker;", '\u{25AE}', '\u{0}'),
    ("mcomma;", '\u{2A29}', '\u{0}'),
    ("mcy;", '\u{43C}', '\u{0}'),
    ("mdash;", '\u{2014}', '\u{0}'),
    ("measuredangle;", '\u{2221}', '\u{0}'),
    ("mfr;", '\u{1D52A}', '\u{0}'),
    ("mho;", '\u{2127}', '\u{0}'),
    ("micro", '\u{B5}', '\u{0}'),
    ("micro;", '\u{B5}', '\u{0}'),
    ("mid;", '\u{2223}', '\u{0}'),
    ("midast;", '*', '\u{0}'),
    ("midcir;", '\u{2AF0}', '\u{0}'),
    ("middot", '\u{B7}', '\u{0}'),
    ("middot;", '\u{B7}', '\u{0}'),
    ("minus;", '\u{2212}', '\u{0}'),
    ("minusb;", '\u{229F}', '\u{0}'),
    ("minusd;", '\u{2238}', '\u{0}'),
    ("minusdu;", '\u{2A2A}', '\u{0}'),
    ("mlcp;", '\u{2ADB}', '\u{0}'),
    ("mldr;", '\u{2026}', '\u{0}'),
    ("mnplus;", '\u{2213}', '\u{0}'),
    ("models;", '\u{22A7}', '\u{0}'),
    ("mopf;", '\u{1D55E}', '\u{0}'),
    ("mp;", '\u{2213}', '\u{0}'),
    ("mscr;", '\u{1D4C2}', '\u{0}'),
    ("mstpos;", '\u{223E}', '\u{0}'),
    ("mu;", '\u{3BC}', '\u{0}'),
    ("multimap;", '\u{22B8}', '\u{0}'),
    ("mumap;", '\u{22B8}', '\u{0}'),
    ("nGg;", '\u{22D9}', '\u{338}'),
    ("nGt;", '\u{226B}', '\u{20D2}'),
    ("nGtv;", '\u{226B}', '\u{338}'),
    ("nLeftarrow;", '\u{21CD}', '\u{0}'),
    ("nLeftrightarrow;", '\u{21CE}', '\u{0}'),
    ("nLl;", '\u{22D8}', '\u{338}'),
    ("nLt;", '\u{226A}', '\u{20D2}'),
    ("nLtv;", '\u{226A}', '\u{338}'),
    ("nRightarrow;", '\u{21CF}', '\u{0}'),
    ("nVDash;", '\u{22AF}', '\u{0}'),
    ("nVdash;", '\u{22AE}', '\u{0}'),
    ("nabla;", '\u{2207}', '\u{0}'),
    ("nacute;", '\u{144}', '\u{0}'),
    ("nang;", '\u{2220}', '\u{20D2}'),
    ("nap;", '\u{2249}', '\u{0}'),
    ("napE;", '\u{2A70}', '\u{338}'),
    ("napid;", '\u{224B}', '\u{338}'),
    ("napos;", '\u{149}', '\u{0}'),
    ("napprox;", '\u{2249}', '\u{0}'),
    ("natur;", '\u{266E}', '\u{0}'),
    ("natural;", '\u{266E}', '\u{0}'),
    ("naturals;", '\u{2115}', '\u{0}'),
    ("nbsp", '\u{A0}', '\u{0}'),
    ("nbsp;", '\u{A0}', '\u{0}'),
    ("nbump;", '\u{224E}', '\u{338}'),
    ("nbumpe;", '\u{224F}', '\u{338}'),
    ("ncap;", '\u{2A43}', '\u{0}'),
    ("ncaron;", '\u{148}', '\u{0}'),
    ("ncedil;", '\u{146}', '\u{0}'),
    ("ncong;", '\u{2247}', '\u{0}'),
    ("ncongdot;", '\u{2A6D}', '\u{338}'),
    ("ncup;", '\u{2A42}', '\u{0}'),
    ("ncy;", '\u{43D}', '\u{0}'),
    ("ndash;", '\u{2013}', '\u{0}'),
    ("ne;", '\u{2260}', '\u{0}'),
    ("neArr;", '\u{21D7}', '\u{0}'),
    ("nearhk;", '\u{2924}', '\u{0}'),
    ("nearr;", '\u{2197}', '\u{0}'),
    ("nearrow;", '\u{2197}', '\u{0}'),
    ("nedot;", '\u{2250}', '\u{338}'),
    ("nequiv;", '\u{2262}', '\u{0}'),
    ("nesear;", '\u{2928}', '\u{0}'),
    ("nesim;", '\u{2242}', '\u{338}'),
    ("nexist;", '\u{2204}', '\u{0}'),
    ("nexists;", '\u{2204}', '\u{0}'),
    ("nfr;", '\u{1D52B}', '\u{0}'),
    ("ngE;", '\u{2267}', '\u{338}'),
    ("nge;", '\u{2271}', '\u{0}'),
    ("ngeq;", '\u{2271}', '\u{0}'),
    ("ngeqq;", '\u{2267}', '\u{338}'),
    ("ngeqslant;", '\u{2A7E}', '\u{338}'),
    ("nges;", '\u{2A7E}', '\u{338}'),
    ("ngsim;", '\u{2275}', '\u{0}'),
    ("ngt;", '\u{226F}', '\u{0}'),
    ("ngtr;", '\u{226F}', '\u{0}'),
    ("nhArr;", '\u{21CE}', '\u{0}'),
    ("nharr;", '\u{21AE}', '\u{0}'),
    ("nhpar;", '\u{2AF2}', '\u{0}'),
    ("ni;", '\u{220B}', '\u{0}'),
    ("nis;", '\u{22FC}', '\u{0}'),
    ("nisd;", '\u{22FA}', '\u{0}'),
    ("niv;", '\u{220B}', '\u{0}'),
    ("njcy;", '\u{45A}', '\u{0}'),
    ("nlArr;", '\u{21CD}', '\u{0}'),
    ("nlE;", '\u{2266}', '\u{338}'),
    ("nlarr;", '\u{219A}', '\u{0}'),
    ("nldr;", '\u{2025}', '\u{0}'),
    ("nle;", '\u{2270}', '\u{0}'),
    ("nleftarrow;", '\u{219A}', '\u{0}'),
    ("nleftrightarrow;", '\u{21AE}', '\u{0}'),
    ("nleq;", '\u{2270}', '\u{0}'),
    ("nleqq;", '\u{2266}', '\u{338}'),
    ("nleqslant;", '\u{2A7D}', '\u{338}'),
    ("nles;", '\u{2A7D}', '\u{338}'),
    ("nless;", '\u{226E}', '\u{0}'),
    ("nlsim;", '\u{2274}', '\u{0}'),
    ("nlt;", '\u{226E}', '\u{0}'),
    ("nltri;", '\u{22EA}', '\u{0}'),
    ("nltrie;", '\u{22EC}', '\u{0}'),
    ("nmid;", '\u{2224}', '\u{0}'),
    ("nopf;", '\u{1D55F}', '\u{0}'),
    ("not", '\u{AC}', '\u{0}'),
    ("not;", '\u{AC}', '\u{0}'),
    ("notin;", '\u{2209}', '\u{0}'),
    ("notinE;", '\u{22F9}', '\u{338}'),
    ("notindot;", '\u{22F5}', '\u{338}'),
    ("notinva;", '\u{2209}', '\u{0}'),
    ("notinvb;", '\u{22F7}', '\u{0}'),
    ("notinvc;", '\u{22F6}', '\u{0}'),
    ("notni;", '\u{220C}', '\u{0}'),
    ("notniva;", '\u{220C}', '\u{0}'),
    ("notnivb;", '\u{22FE}', '\u{0}'),
    ("notnivc;", '\u{22FD}', '\u{0}'),
    ("npar;", '\u{2226}', '\u{0}'),
    ("nparallel;", '\u{2226}', '\u{0}'),
    ("nparsl;", '\u{2AFD}', '\u{20E5}'),
    ("npart;", '\u{2202}', '\u{338}'),
    ("npolint;", '\u{2A14}', '\u{0}'),
    ("npr;", '\u{2280}', '\u{0}'),
    ("nprcue;", '\u{22E0}', '\u{0}'),
    ("npre;", '\u{2AAF}', '\u{338}'),
    ("nprec;", '\u{2280}', '\u{0}'),
    ("npreceq;", '\u{2AAF}', '\u{338}'),
    ("nrArr;", '\u{21CF}', '\u{0}'),
    ("nrarr;", '\u{219B}', '\u{0}'),
    ("nrarrc;", '\u{2933}', '\u{338}'),
    ("nrarrw;", '\u{219D}', '\u{338}'),
    ("nrightarrow;", '\u{219B}', '\u{0}'),
    ("nrtri;", '\u{22EB}', '\u{0}'),
    ("nrtrie;", '\u{22ED}', '\u{0}'),
    ("nsc;", '\u{2281}', '\u{0}'),
    ("nsccue;", '\u{22E1}', '\u{0}'),
    ("nsce;", '\u{2AB0}', '\u{338}'),
    ("nscr;", '\u{1D4C3}', '\u{0}'),
    ("nshortmid;", '\u{2224}', '\u{0}'),
    ("nshortparallel;", '\u{2226}', '\u{0}'),
    ("nsim;", '\u{2241}', '\u{0}'),
    ("nsime;", '\u{2244}', '\u{0}'),
    ("nsimeq;", '\u{2244}', '\u{0}'),
    ("nsmid;", '\u{2224}', '\u{0}'),
    ("nspar;", '\u{2226}', '\u{0}'),
    ("nsqsube;", '\u{22E2}', '\u{0}'),
    ("nsqsupe;", '\u{22E3}', '\u{0}'),
    ("nsub;", '\u{2284}', '\u{0}'),
    ("nsubE;", '\u{2AC5}', '\u{338}'),
    ("nsube;", '\u{2288}', '\u{0}'),
    ("nsubset;", '\u{2282}', '\u{20D2}'),
    ("nsubseteq;", '\u{2288}', '\u{0}'),
    ("nsubseteqq;", '\u{2AC5}', '\u{338}'),
    ("nsucc;", '\u{2281}', '\u{0}'),
    ("nsucceq;", '\u{2AB0}', '\u{338}'),
    ("nsup;", '\u{2285}', '\u{0}'),
    ("nsupE;", '\u{2AC6}', '\u{338}'),
    ("nsupe;", '\u{2289}', '\u{0}'),
    ("nsupset;", '\u{2283}', '\u{20D2}'),
    ("nsupseteq;", '\u{2289}', '\u{0}'),
    ("nsupseteqq;", '\u{2AC6}', '\u{338}'),
    ("ntgl;", '\u{2279}', '\u{0}'),
    ("ntilde", '\u{F1}', '\u{0}'),
    ("ntilde;", '\u{F1}', '\u{0}'),
    ("ntlg;", '\u{2278}', '\u{0}'),
    ("ntriangleleft;", '\u{22EA}', '\u{0}'),
    ("ntrianglelefteq;", '\u{22EC}', '\u{0}'),
    ("ntriangleright;", '\u{22EB}', '\u{0}'),
    ("ntrianglerighteq;", '\u{22ED}', '\u{0}'),
    ("nu;", '\u{3BD}', '\u{0}'),
    ("num;", '#', '\u{0}'),
    ("numero;", '\u{2116}', '\u{0}'),
    ("numsp;", '\u{2007}', '\u{0}'),
    ("nvDash;", '\u{22AD}', '\u{0}'),
    ("nvHarr;", '\u{2904}', '\u{0}'),
    ("nvap;", '\u{224D}', '\u{20D2}'),
    ("nvdash;", '\u{22AC}', '\u{0}'),
    ("nvge;", '\u{2265}', '\u{20D2}'),
    ("nvgt;", '>', '\u{20D2}'),
    ("nvinfin;", '\u{29DE}', '\u{0}'),
    ("nvlArr;", '\u{2902}', '\u{0}'),
    ("nvle;", '\u{2264}', '\u{20D2}'),
    ("nvlt;", '<', '\u{20D2}'),
    ("nvltrie;", '\u{22B4}', '\u{20D2}'),
    ("nvrArr;", '\u{2903}', '\u{0}'),
    ("nvrtrie;", '\u{22B5}', '\u{20D2}'),
    ("nvsim;", '\u{223C}', '\u{20D2}'),
    ("nwArr;", '\u{21D6}', '\u{0}'),
    ("nwarhk;", '\u{2923}', '\u{0}'),
    ("nwarr;", '\u{2196}', '\u{0}'),
    ("nwarrow;", '\u{2196}', '\u{0}'),
    ("nwnear;", '\u{2927}', '\u{0}'),
];

/// The names that begin with `o` to `r`. A second character of U+0000 stands
/// for none.
pub const LOWER_O_TO_R: [(&'static str, char, char); 245] = [
    ("oS;", '\u{24C8}', '\u{0}'),
    ("oacute", '\u{F3}', '\u{0}'),
    ("oacute;", '\u{F3}', '\u{0}'),
    ("oast;", '\u{229B}', '\u{0}'),
    ("ocir;", '\u{229A}', '\u{0}'),
    ("ocirc", '\u{F4}', '\u{0}'),
    ("ocirc;", '\u{F4}', '\u{0}'),
    ("ocy;", '\u{43E}', '\u{0}'),
    ("odash;", '\u{229D}', '\u{0}'),
    ("odblac;", '\u{151}', '\u{0}'),
    ("odiv;", '\u{2A38}', '\u{0}'),
    ("odot;", '\u{2299}', '\u{0}'),
    ("odsold;", '\u{29BC}', '\u{0}'),
    ("oelig;", '\u{153}', '\u{0}'),
    ("ofcir;", '\u{29BF}', '\u{0}'),
    ("ofr;", '\u{1D52C}', '\u{0}'),
    ("ogon;", '\u{2DB}', '\u{0}'),
    ("ograve", '\u{F2}', '\u{0}'),
    ("ograve;", '\u{F2}', '\u{0}'),
    ("ogt;", '\u{29C1}', '\u{0}'),
    ("ohbar;", '\u{29B5}', '\u{0}'),
    ("ohm;", '\u{3A9}', '\u{0}'),
    ("oint;", '\u{222E}', '\u{0}'),
    ("olarr;", '\u{21BA}', '\u{0}'),
    ("olcir;", '\u{29BE}', '\u{0}'),
    ("olcross;", '\u{29BB}', '\u{0}'),
    ("oline;", '\u{203E}', '\u{0}'),
    ("olt;", '\u{29C0}', '\u{0}'),
    ("omacr;", '\u{14D}', '\u{0}'),
    ("omega;", '\u{3C9}', '\u{0}'),
    ("omicron;", '\u{3BF}', '\u{0}'),
    ("omid;", '\u{29B6}', '\u{0}'),
    ("ominus;", '\u{2296}', '\u{0}'),
    ("oopf;", '\u{1D560}', '\u{0}'),
    ("opar;", '\u{29B7}', '\u{0}'),
    ("operp;", '\u{29B9}', '\u{0}'),
    ("oplus;", '\u{2295}', '\u{0}'),
    ("or;", '\u{2228}', '\u{0}'),
    ("orarr;", '\u{21BB}', '\u{0}'),
    ("ord;", '\u{2A5D}', '\u{0}'),
    ("order;", '\u{2134}', '\u{0}'),
    ("orderof;", '\u{2134}', '\u{0}'),
    ("ordf", '\u{AA}', '\u{0}'),
    ("ordf;", '\u{AA}', '\u{0}'),
    ("ordm", '\u{BA}', '\u{0}'),
    ("ordm;", '\u{BA}', '\u{0}'),
    ("origof;", '\u{22B6}', '\u{0}'),
    ("oror;", '\u{2A56}', '\u{0}'),
    ("orslope;", '\u{2A57}', '\u{0}'),
    ("orv;", '\u{2A5B}', '\u{0}'),
    ("oscr;", '\u{2134}', '\u{0}'),
    ("oslash", '\u{F8}', '\u{0}'),
    ("oslash;", '\u{F8}', '\u{0}'),
    ("osol;", '\u{2298}', '\u{0}'),
    ("otilde", '\u{F5}', '\u{0}'),
    ("otilde;", '\u{F5}', '\u{0}'),
    ("otimes;", '\u{2297}', '\u{0}'),
    ("otimesas;", '\u{2A36}', '\u{0}'),
    ("ouml", '\u{F6}', '\u{0}'),
    ("ouml;", '\u{F6}', '\u{0}'),
    ("ovbar;", '\u{233D}', '\u{0}'),
    ("par;", '\u{2225}', '\u{0}'),
    ("para", '\u{B6}', '\u{0}'),
    ("para;", '\u{B6}', '\u{0}'),
    ("parallel;", '\u{2225}', '\u{0}'),
    ("parsim;", '\u{2AF3}', '\u{0}'),
    ("parsl;", '\u{2AFD}', '\u{0}'),
    ("part;", '\u{2202}', '\u{0}'),
    ("pcy;", '\u{43F}', '\u{0}'),
    ("percnt;", '%', '\u{0}'),
    ("period;", '.', '\u{0}'),
    ("permil;", '\u{2030}', '\u{0}'),
    ("perp;", '\u{22A5}', '\u{0}'),
    ("pertenk;", '\u{2031}', '\u{0}'),
    ("pfr;", '\u{1D52D}', '\u{0}'),
    ("phi;", '\u{3C6}', '\u{0}'),
    ("phiv;", '\u{3D5}', '\u{0}'),
    ("phmmat;", '\u{2133}', '\u{0}'),
    ("phone;", '\u{260E}', '\u{0}'),
    ("pi;", '\u{3C0}', '\u{0}'),
    ("pitchfork;", '\u{22D4}', '\u{0}'),
    ("piv;", '\u{3D6}', '\u{0}'),
    ("planck;", '\u{210F}', '\u{0}'),
    ("planckh;", '\u{210E}', '\u{0}'),
    ("plankv;", '\u{210F}', '\u{0}'),
    ("plus;", '+', '\u{0}'),
    ("plusacir;", '\u{2A23}', '\u{0}'),
    ("plusb;", '\u{229E}', '\u{0}'),
    ("pluscir;", '\u{2A22}', '\u{0}'),
    ("plusdo;", '\u{2214}', '\u{0}'),
    ("plusdu;", '\u{2A25}', '\u{0}'),
    ("pluse;", '\u{2A72}', '\u{0}'),
    ("plusmn", '\u{B1}', '\u{0}'),
    ("plusmn;", '\u{B1}', '\u{0}'),
    ("plussim;", '\u{2A26}', '\u{0}'),
    ("plustwo;", '\u{2A27}', '\u{0}'),
    ("pm;", '\u{B1}', '\u{0}'),
    ("pointint;", '\u{2A15}', '\u{0}'),
    ("popf;", '\u{1D561}', '\u{0}'),
    ("pound", '\u{A3}', '\u{0}'),
    ("pound;", '\u{A3}', '\u{0}'),
    ("pr;", '\u{227A}', '\u{0}'),
    ("prE;", '\u{2AB3}', '\u{0}'),
    ("prap;", '\u{2AB7}', '\u{0}'),
    ("prcue;", '\u{227C}', '\u{0}'),
    ("pre;", '\u{2AAF}', '\u{0}'),
    ("prec;", '\u{227A}', '\u{0}'),
    ("precapprox;", '\u{2AB7}', '\u{0}'),
    ("preccurlyeq;", '\u{227C}', '\u{0}'),
    ("preceq;", '\u{2AAF}', '\u{0}'),
    ("precnapprox;", '\u{2AB9}', '\u{0}'),
    ("precneqq;", '\u{2AB5}', '\u{0}'),
    ("precnsim;", '\u{22E8}', '\u{0}'),
    ("precsim;", '\u{227E}', '\u{0}'),
    ("prime;", '\u{2032}', '\u{0}'),
    ("primes;", '\u{2119}', '\u{0}'),
    ("prnE;", '\u{2AB5}', '\u{0}'),
    ("prnap;", '\u{2AB9}', '\u{0}'),
    ("prnsim;", '\u{22E8}', '\u{0}'),
    ("prod;", '\u{220F}', '\u{0}'),
    ("profalar;", '\u{232E}', '\u{0}'),
    ("profline;", '\u{2312}', '\u{0}'),
    ("profsurf;", '\u{2313}', '\u{0}'),
    ("prop;", '\u{221D}', '\u{0}'),
    ("propto;", '\u{221D}', '\u{0}'),
    ("prsim;", '\u{227E}', '\u{0}'),
    ("prurel;", '\u{22B0}', '\u{0}'),
    ("pscr;", '\u{1D4C5}', '\u{0}'),
    ("psi;", '\u{3C8}', '\u{0}'),
    ("puncsp;", '\u{2008}', '\u{0}'),
    ("qfr;", '\u{1D52E}', '\u{0}'),
    ("qint;", '\u{2A0C}', '\u{0}'),
    ("qopf;", '\u{1D562}', '\u{0}'),
    ("qprime;", '\u{2057}', '\u{0}'),
    ("qscr;", '\u{1D4C6}', '\u{0}'),
    ("quaternions;", '\u{210D}', '\u{0}'),
    ("quatint;", '\u{2A16}', '\u{0}'),
    ("quest;", '?', '\u{0}'),
    ("questeq;", '\u{225F}', '\u{0}'),
    ("quot", '"', '\u{0}'),
    ("quot;", '"', '\u{0}'),
    ("rAarr;", '\u{21DB}', '\u{0}'),
    ("rArr;", '\u{21D2}', '\u{0}'),
    ("rAtail;", '\u{291C}', '\u{0}'),
    ("rBarr;", '\u{290F}', '\u{0}'),
    ("rHar;", '\u{2964}', '\u{0}'),
    ("race;", '\u{223D}', '\u{331}'),
    ("racute;", '\u{155}', '\u{0}'),
    ("radic;", '\u{221A}', '\u{0}'),
    ("raemptyv;", '\u{29B3}', '\u{0}'),
    ("rang;", '\u{27E9}', '\u{0}'),
    ("rangd;", '\u{2992}', '\u{0}'),
    ("range;", '\u{29A5}', '\u{0}'),
    ("rangle;", '\u{27E9}', '\u{0}'),
    ("raquo", '\u{BB}', '\u{0}'),
    ("raquo;", '\u{BB}', '\u{0}'),
    ("rarr;", '\u{2192}', '\u{0}'),
    ("rarrap;", '\u{2975}', '\u{0}'),
    ("rarrb;", '\u{21E5}', '\u{0}'),
    ("rarrbfs;", '\u{2920}', '\u{0}'),
    ("rarrc;", '\u{2933}', '\u{0}'),
    ("rarrfs;", '\u{291E}', '\u{0}'),
    ("rarrhk;", '\u{21AA}', '\u{0}'),
    ("rarrlp;", '\u{21AC}', '\u{0}'),
    ("rarrpl;", '\u{2945}', '\u{0}'),
    ("rarrsim;", '\u{2974}', '\u{0}'),
    ("rarrtl;", '\u{21A3}', '\u{0}'),
    ("rarrw;", '\u{219D}', '\u{0}'),
    ("ratail;", '\u{291A}', '\u{0}'),
    ("ratio;", '\u{2236}', '\u{0}'),
    ("rationals;", '\u{211A}', '\u{0}'),
    ("rbarr;", '\u{290D}', '\u{0}'),
    ("rbbrk;", '\u{2773}', '\u{0}'),
    ("rbrace;", '}', '\u{0}'),
    ("rbrack;", ']', '\u{0}'),
    ("rbrke;", '\u{298C}', '\u{0}'),
    ("rbrksld;", '\u{298E}', '\u{0}'),
    ("rbrkslu;", '\u{2990}', '\u{0}'),
    ("rcaron;", '\u{159}', '\u{0}'),
    ("rcedil;", '\u{157}', '\u{0}'),
    ("rceil;", '\u{2309}', '\u{0}'),
    ("rcub;", '}', '\u{0}'),
    ("rcy;", '\u{440}', '\u{0}'),
    ("rdca;", '\u{2937}', '\u{0}'),
    ("rdldhar;", '\u{2969}', '\u{0}'),
    ("rdquo;", '\u{201D}', '\u{0}'),
    ("rdquor;", '\u{201D}', '\u{0}'),
    ("rdsh;", '\u{21B3}', '\u{0}'),
    ("real;", '\u{211C}', '\u{0}'),
    ("realine;", '\u{211B}', '\u{0}'),
    ("realpart;", '\u{211C}', '\u{0}'),
    ("reals;", '\u{211D}', '\u{0}'),
    ("rect;", '\u{25AD}', '\u{0}'),
    ("reg", '\u{AE}', '\u{0}'),
    ("reg;", '\u{AE}', '\u{0}'),
    ("rfisht;", '\u{297D}', '\u{0}'),
    ("rfloor;", '\u{230B}', '\u{0}'),
    ("rfr;", '\u{1D52F}', '\u{0}'),
    ("rhard;", '\u{21C1}', '\u{0}'),
    ("rharu;", '\u{21C0}', '\u{0}'),
    ("rharul;", '\u{296C}', '\u{0}'),
    ("rho;", '\u{3C1}', '\u{0}'),
    ("rhov;", '\u{3F1}', '\u{0}'),
    ("rightarrow;", '\u{2192}', '\u{0}'),
    ("rightarrowtail;", '\u{21A3}', '\u{0}'),
    ("rightharpoondown;", '\u{21C1}', '\u{0}'),
    ("rightharpoonup;", '\u{21C0}', '\u{0}'),
    ("rightleftarrows;", '\u{21C4}', '\u{0}'),
    ("rightleftharpoons;", '\u{21CC}', '\u{0}'),
    ("rightrightarrows;", '\u{21C9}', '\u{0}'),
    ("rightsquigarrow;", '\u{219D}', '\u{0}'),
    ("rightthreetimes;", '\u{22CC}', '\u{0}'),
    ("ring;", '\u{2DA}', '\u{0}'),
    ("risingdotseq;", '\u{2253}', '\u{0}'),
    ("rlarr;", '\u{21C4}', '\u{0}'),
    ("rlhar;", '\u{21CC}', '\u{0}'),
    ("rlm;", '\u{200F}', '\u{0}'),
    ("rmoust;", '\u{23B1}', '\u{0}'),
    ("rmoustache;", '\u{23B1}', '\u{0}'),
    ("rnmid;", '\u{2AEE}', '\u{0}'),
    ("roang;", '\u{27ED}', '\u{0}'),
    ("roarr;", '\u{21FE}', '\u{0}'),
    ("robrk;", '\u{27E7}', '\u{0}'),
    ("ropar;", '\u{2986}', '\u{0}'),
    ("ropf;", '\u{1D563}', '\u{0}'),
    ("roplus;", '\u{2A2E}', '\u{0}'),
    ("rotimes;", '\u{2A35}', '\u{0}'),
    ("rpar;", ')', '\u{0}'),
    ("rpargt;", '\u{2994}', '\u{0}'),
    ("rppolint;", '\u{2A12}', '\u{0}'),
    ("rrarr;", '\u{21C9}', '\u{0}'),
    ("rsaquo;", '\u{203A}', '\u{0}'),
    ("rscr;", '\u{1D4C7}', '\u{0}'),
    ("rsh;", '\u{21B1}', '\u{0}'),
    ("rsqb;", ']', '\u{0}'),
    ("rsquo;", '\u{2019}', '\u{0}'),
    ("rsquor;", '\u{2019}', '\u{0}'),
    ("rthree;", '\u{22CC}', '\u{0}'),
    ("rtimes;", '\u{22CA}', '\u{0}'),
    ("rtri;", '\u{25B9}', '\u{0}'),
    ("rtrie;", '\u{22B5}', '\u{0}'),
    ("rtrif;", '\u{25B8}', '\u{0}'),
    ("rtriltri;", '\u{29CE}', '\u{0}'),
    ("ruluhar;", '\u{2968}', '\u{0}'),
    ("rx;", '\u{211E}', '\u{0}'),
];

/// The names that begin with `s` to `z`. A second character of U+0000 stands
/// for none.
pub const LOWER_S_TO_Z: [(&'static str, char, char); 372] = [
    ("sacute;", '\u{15B}', '\u{0}'),
    ("sbquo;", '\u{201A}', '\u{0}'),
    ("sc;", '\u{227B}', '\u{0}'),
    ("scE;", '\u{2AB4}', '\u{0}'),
    ("scap;", '\u{2AB8}', '\u{0}'),
    ("scaron;", '\u{161}', '\u{0}'),
    ("sccue;", '\u{227D}', '\u{0}'),
    ("sce;", '\u{2AB0}', '\u{0}'),
    ("scedil;", '\u{15F}', '\u{0}'),
    ("scirc;", '\u{15D}', '\u{0}'),
    ("scnE;", '\u{2AB6}', '\u{0}'),
    ("scnap;", '\u{2ABA}', '\u{0}'),
    ("scnsim;", '\u{22E9}', '\u{0}'),
    ("scpolint;", '\u{2A13}', '\u{0}'),
    ("scsim;", '\u{227F}', '\u{0}'),
    ("scy;", '\u{441}', '\u{0}'),
    ("sdot;", '\u{22C5}', '\u{0}'),
    ("sdotb;", '\u{22A1}', '\u{0}'),
    ("sdote;", '\u{2A66}', '\u{0}'),
    ("seArr;", '\u{21D8}', '\u{0}'),
    ("searhk;", '\u{2925}', '\u{0}'),
    ("searr;", '\u{2198}', '\u{0}'),
    ("searrow;", '\u{2198}', '\u{0}'),
    ("sect", '\u{A7}', '\u{0}'),
    ("sect;", '\u{A7}', '\u{0}'),
    ("semi;", ';', '\u{0}'),
    ("seswar;", '\u{2929}', '\u{0}'),
    ("setminus;", '\u{2216}', '\u{0}'),
    ("setmn;", '\u{2216}', '\u{0}'),
    ("sext;", '\u{2736}', '\u{0}'),
    ("sfr;", '\u{1D530}', '\u{0}'),
    ("sfrown;", '\u{2322}', '\u{0}'),
    ("sharp;", '\u{266F}', '\u{0}'),
    ("shchcy;", '\u{449}', '\u{0}'),
    ("shcy;", '\u{448}', '\u{0}'),
    ("shortmid;", '\u{2223}', '\u{0}'),
    ("shortparallel;", '\u{2225}', '\u{0}'),
    ("shy", '\u{AD}', '\u{0}'),
    ("shy;", '\u{AD}', '\u{0}'),
    ("sigma;", '\u{3C3}', '\u{0}'),
    ("sigmaf;", '\u{3C2}', '\u{0}'),
    ("sigmav;", '\u{3C2}', '\u{0}'),
    ("sim;", '\u{223C}', '\u{0}'),
    ("simdot;", '\u{2A6A}', '\u{0}'),
    ("sime;", '\u{2243}', '\u{0}'),
    ("simeq;", '\u{2243}', '\u{0}'),
    ("simg;", '\u{2A9E}', '\u{0}'),
    ("simgE;", '\u{2AA0}', '\u{0}'),
    ("siml;", '\u{2A9D}', '\u{0}'),
    ("simlE;", '\u{2A9F}', '\u{0}'),
    ("simne;", '\u{2246}', '\u{0}'),
    ("simplus;", '\u{2A24}', '\u{0}'),
    ("simrarr;", '\u{2972}', '\u{0}'),
    ("slarr;", '\u{2190}', '\u{0}'),
    ("smallsetminus;", '\u{2216}', '\u{0}'),
    ("smashp;", '\u{2A33}', '\u{0}'),
    ("smeparsl;", '\u{29E4}', '\u{0}'),
    ("smid;", '\u{2223}', '\u{0}'),
    ("smile;", '\u{2323}', '\u{0}'),
    ("smt;", '\u{2AAA}', '\u{0}'),
    ("smte;", '\u{2AAC}', '\u{0}'),
    ("smtes;", '\u{2AAC}', '\u{FE00}'),
    ("softcy;", '\u{44C}', '\u{0}'),
    ("sol;", '/', '\u{0}'),
    ("solb;", '\u{29C4}', '\u{0}'),
    ("solbar;", '\u{233F}', '\u{0}'),
    ("sopf;", '\u{1D564}', '\u{0}'),
    ("spades;", '\u{2660}', '\u{0}'),
    ("spadesuit;", '\u{2660}', '\u{0}'),
    ("spar;", '\u{2225}', '\u{0}'),
    ("sqcap;", '\u{2293}', '\u{0}'),
    ("sqcaps;", '\u{2293}', '\u{FE00}'),
    ("sqcup;", '\u{2294}', '\u{0}'),
    ("sqcups;", '\u{2294}', '\u{FE00}'),
    ("sqsub;", '\u{228F}', '\u{0}'),
    ("sqsube;", '\u{2291}', '\u{0}'),
    ("sqsubset;", '\u{228F}', '\u{0}'),
    ("sqsubseteq;", '\u{2291}', '\u{0}'),
    ("sqsup;", '\u{2290}', '\u{0}'),
    ("sqsupe;", '\u{2292}', '\u{0}'),
    ("sqsupset;", '\u{2290}', '\u{0}'),
    ("sqsupseteq;", '\u{2292}', '\u{0}'),
    ("squ;", '\u{25A1}', '\u{0}'),
    ("square;", '\u{25A1}', '\u{0}'),
    ("squarf;", '\u{25AA}', '\u{0}'),
    ("squf;", '\u{25AA}', '\u{0}'),
    ("srarr;", '\u{2192}', '\u{0}'),
    ("sscr;", '\u{1D4C8}', '\u{0}'),
    ("ssetmn;", '\u{2216}', '\u{0}'),
    ("ssmile;", '\u{2323}', '\u{0}'),
    ("sstarf;", '\u{22C6}', '\u{0}'),
    ("star;", '\u{2606}', '\u{0}'),
    ("starf;", '\u{2605}', '\u{0}'),
    ("straightepsilon;", '\u{3F5}', '\u{0}'),
    ("straightphi;", '\u{3D5}', '\u{0}'),
    ("strns;", '\u{AF}', '\u{0}'),
    ("sub;", '\u{2282}', '\u{0}'),
    ("subE;", '\u{2AC5}', '\u{0}'),
    ("subdot;", '\u{2ABD}', '\u{0}'),
    ("sube;", '\u{2286}', '\u{0}'),
    ("subedot;", '\u{2AC3}', '\u{0}'),
    ("submult;", '\u{2AC1}', '\u{0}'),
    ("subnE;", '\u{2ACB}', '\u{0}'),
    ("subne;", '\u{228A}', '\u{0}'),
    ("subplus;", '\u{2ABF}', '\u{0}'),
    ("subrarr;", '\u{2979}', '\u{0}'),
    ("subset;", '\u{2282}', '\u{0}'),
    ("subseteq;", '\u{2286}', '\u{0}'),
    ("subseteqq;", '\u{2AC5}', '\u{0}'),
    ("subsetneq;", '\u{228A}', '\u{0}'),
    ("subsetneqq;", '\u{2ACB}', '\u{0}'),
    ("subsim;", '\u{2AC7}', '\u{0}'),
    ("subsub;", '\u{2AD5}', '\u{0}'),
    ("subsup;", '\u{2AD3}', '\u{0}'),
    ("succ;", '\u{227B}', '\u{0}'),
    ("succapprox;", '\u{2AB8}', '\u{0}'),
    ("succcurlyeq;", '\u{227D}', '\u{0}'),
    ("succeq;", '\u{2AB0}', '\u{0}'),
    ("succnapprox;", '\u{2ABA}', '\u{0}'),
    ("succneqq;", '\u{2AB6}', '\u{0}'),
    ("succnsim;", '\u{22E9}', '\u{0}'),
    ("succsim;", '\u{227F}', '\u{0}'),
    ("sum;", '\u{2211}', '\u{0}'),
    ("sung;", '\u{266A}', '\u{0}'),
    ("sup1", '\u{B9}', '\u{0}'),
    ("sup1;", '\u{B9}', '\u{0}'),
    ("sup2", '\u{B2}', '\u{0}'),
    ("sup2;", '\u{B2}', '\u{0}'),
    ("sup3", '\u{B3}', '\u{0}'),
    ("sup3;", '\u{B3}', '\u{0}'),
    ("sup;", '\u{2283}', '\u{0}'),
    ("supE;", '\u{2AC6}', '\u{0}'),
    ("supdot;", '\u{2ABE}', '\u{0}'),
    ("supdsub;", '\u{2AD8}', '\u{0}'),
    ("supe;", '\u{2287}', '\u{0}'),
    ("supedot;", '\u{2AC4}', '\u{0}'),
    ("suphsol;", '\u{27C9}', '\u{0}'),
    ("suphsub;", '\u{2AD7}', '\u{0}'),
    ("suplarr;", '\u{297B}', '\u{0}'),
    ("supmult;", '\u{2AC2}', '\u{0}'),
    ("supnE;", '\u{2ACC}', '\u{0}'),
    ("supne;", '\u{228B}', '\u{0}'),
    ("supplus;", '\u{2AC0}', '\u{0}'),
    ("supset;", '\u{2283}', '\u{0}'),
    ("supseteq;", '\u{2287}', '\u{0}'),
    ("supseteqq;", '\u{2AC6}', '\u{0}'),
    ("supsetneq;", '\u{228B}', '\u{0}'),
    ("supsetneqq;", '\u{2ACC}', '\u{0}'),
    ("supsim;", '\u{2AC8}', '\u{0}'),
    ("supsub;", '\u{2AD4}', '\u{0}'),
    ("supsup;", '\u{2AD6}', '\u{0}'),
    ("swArr;", '\u{21D9}', '\u{0}'),
    ("swarhk;", '\u{2926}', '\u{0}'),
    ("swarr;", '\u{2199}', '\u{0}'),
    ("swarrow;", '\u{2199}', '\u{0}'),
    ("swnwar;", '\u{292A}', '\u{0}'),
    ("szlig", '\u{DF}', '\u{0}'),
    ("szlig;", '\u{DF}', '\u{0}'),
    ("target;", '\u{2316}', '\u{0}'),
    ("tau;", '\u{3C4}', '\u{0}'),
    ("tbrk;", '\u{23B4}', '\u{0}'),
    ("tcaron;", '\u{165}', '\u{0}'),
    ("tcedil;", '\u{163}', '\u{0}'),
    ("tcy;", '\u{442}', '\u{0}'),
    ("tdot;", '\u{20DB}', '\u{0}'),
    ("telrec;", '\u{2315}', '\u{0}'),
    ("tfr;", '\u{1D531}', '\u{0}'),
    ("there4;", '\u{2234}', '\u{0}'),
    ("therefore;", '\u{2234}', '\u{0}'),
    ("theta;", '\u{3B8}', '\u{0}'),
    ("thetasym;", '\u{3D1}', '\u{0}'),
    ("thetav;", '\u{3D1}', '\u{0}'),
    ("thickapprox;", '\u{2248}', '\u{0}'),
    ("thicksim;", '\u{223C}', '\u{0}'),
    ("thinsp;", '\u{2009}', '\u{0}'),
    ("thkap;", '\u{2248}', '\u{0}'),
    ("thksim;", '\u{223C}', '\u{0}'),
    ("thorn", '\u{FE}', '\u{0}'),
    ("thorn;", '\u{FE}', '\u{0}'),
    ("tilde;", '\u{2DC}', '\u{0}'),
    ("times", '\u{D7}', '\u{0}'),
    ("times;", '\u{D7}', '\u{0}'),
    ("timesb;", '\u{22A0}', '\u{0}'),
    ("timesbar;", '\u{2A31}', '\u{0}'),
    ("timesd;", '\u{2A30}', '\u{0}'),
    ("tint;", '\u{222D}', '\u{0}'),
    ("toea;", '\u{2928}', '\u{0}'),
    ("top;", '\u{22A4}', '\u{0}'),
    ("topbot;", '\u{2336}', '\u{0}'),
    ("topcir;", '\u{2AF1}', '\u{0}'),
    ("topf;", '\u{1D565}', '\u{0}'),
    ("topfork;", '\u{2ADA}', '\u{0}'),
    ("tosa;", '\u{2929}', '\u{0}'),
    ("tprime;", '\u{2034}', '\u{0}'),
    ("trade;", '\u{2122}', '\u{0}'),
    ("triangle;", '\u{25B5}', '\u{0}'),
    ("triangledown;", '\u{25BF}', '\u{0}'),
    ("triangleleft;", '\u{25C3}', '\u{0}'),
    ("trianglelefteq;", '\u{22B4}', '\u{0}'),
    ("triangleq;", '\u{225C}', '\u{0}'),
    ("triangleright;", '\u{25B9}', '\u{0}'),
    ("trianglerighteq;", '\u{22B5}', '\u{0}'),
    ("tridot;", '\u{25EC}', '\u{0}'),
    ("trie;", '\u{225C}', '\u{0}'),
    ("triminus;", '\u{2A3A}', '\u{0}'),
    ("triplus;", '\u{2A39}', '\u{0}'),
    ("trisb;", '\u{29CD}', '\u{0}'),
    ("tritime;", '\u{2A3B}', '\u{0}'),
    ("trpezium;", '\u{23E2}', '\u{0}'),
    ("tscr;", '\u{1D4C9}', '\u{0}'),
    ("tscy;", '\u{446}', '\u{0}'),
    ("tshcy;", '\u{45B}', '\u{0}'),
    ("tstrok;", '\u{167}', '\u{0}'),
    ("twixt;", '\u{226C}', '\u{0}'),
    ("twoheadleftarrow;", '\u{219E}', '\u{0}'),
    ("twoheadrightarrow;", '\u{21A0}', '\u{0}'),
    ("uArr;", '\u{21D1}', '\u{0}'),
    ("uHar;", '\u{2963}', '\u{0}'),
    ("uacute", '\u{FA}', '\u{0}'),
    ("uacute;", '\u{FA}', '\u{0}'),
    ("uarr;", '\u{2191}', '\u{0}'),
    ("ubrcy;", '\u{45E}', '\u{0}'),
    ("ubreve;", '\u{16D}', '\u{0}'),
    ("ucirc", '\u{FB}', '\u{0}'),
    ("ucirc;", '\u{FB}', '\u{0}'),
    ("ucy;", '\u{443}', '\u{0}'),
    ("udarr;", '\u{21C5}', '\u{0}'),
    ("udblac;", '\u{171}', '\u{0}'),
    ("udhar;", '\u{296E}', '\u{0}'),
    ("ufisht;", '\u{297E}', '\u{0}'),
    ("ufr;", '\u{1D532}', '\u{0}'),
    ("ugrave", '\u{F9}', '\u{0}'),
    ("ugrave;", '\u{F9}', '\u{0}'),
    ("uharl;", '\u{21BF}', '\u{0}'),
    ("uharr;", '\u{21BE}', '\u{0}'),
    ("uhblk;", '\u{2580}', '\u{0}'),
    ("ulcorn;", '\u{231C}', '\u{0}'),
    ("ulcorner;", '\u{231C}', '\u{0}'),
    ("ulcrop;", '\u{230F}', '\u{0}'),
    ("ultri;", '\u{25F8}', '\u{0}'),
    ("umacr;", '\u{16B}', '\u{0}'),
    ("uml", '\u{A8}', '\u{0}'),
    ("uml;", '\u{A8}', '\u{0}'),
    ("uogon;", '\u{173}', '\u{0}'),
    ("uopf;", '\u{1D566}', '\u{0}'),
    ("uparrow;", '\u{2191}', '\u{0}'),
    ("updownarrow;", '\u{2195}', '\u{0}'),
    ("upharpoonleft;", '\u{21BF}', '\u{0}'),
    ("upharpoonright;", '\u{21BE}', '\u{0}'),
    ("uplus;", '\u{228E}', '\u{0}'),
    ("upsi;", '\u{3C5}', '\u{0}'),
    ("upsih;", '\u{3D2}', '\u{0}'),
    ("upsilon;", '\u{3C5}', '\u{0}'),
    ("upuparrows;", '\u{21C8}', '\u{0}'),
    ("urcorn;", '\u{231D}', '\u{0}'),
    ("urcorner;", '\u{231D}', '\u{0}'),
    ("urcrop;", '\u{230E}', '\u{0}'),
    ("uring;", '\u{16F}', '\u{0}'),
    ("urtri;", '\u{25F9}', '\u{0}'),
    ("uscr;", '\u{1D4CA}', '\u{0}'),
    ("utdot;", '\u{22F0}', '\u{0}'),
    ("utilde;", '\u{169}', '\u{0}'),
    ("utri;", '\u{25B5}', '\u{0}'),
    ("utrif;", '\u{25B4}', '\u{0}'),
    ("uuarr;", '\u{21C8}', '\u{0}'),
    ("uuml", '\u{FC}', '\u{0}'),
    ("uuml;", '\u{FC}', '\u{0}'),
    ("uwangle;", '\u{29A7}', '\u{0}'),
    ("vArr;", '\u{21D5}', '\u{0}'),
    ("vBar;", '\u{2AE8}', '\u{0}'),
    ("vBarv;", '\u{2AE9}', '\u{0}'),
    ("vDash;", '\u{22A8}', '\u{0}'),
    ("vangrt;", '\u{299C}', '\u{0}'),
    ("varepsilon;", '\u{3F5}', '\u{0}'),
    ("varkappa;", '\u{3F0}', '\u{0}'),
    ("varnothing;", '\u{2205}', '\u{0}'),
    ("varphi;", '\u{3D5}', '\u{0}'),
    ("varpi;", '\u{3D6}', '\u{0}'),
    ("varpropto;", '\u{221D}', '\u{0}'),
    ("varr;", '\u{2195}', '\u{0}'),
    ("varrho;", '\u{3F1}', '\u{0}'),
    ("varsigma;", '\u{3C2}', '\u{0}'),
    ("varsubsetneq;", '\u{228A}', '\u{FE00}'),
    ("varsubsetneqq;", '\u{2ACB}', '\u{FE00}'),
    ("varsupsetneq;", '\u{228B}', '\u{FE00}'),
    ("varsupsetneqq;", '\u{2ACC}', '\u{FE00}'),
    ("vartheta;", '\u{3D1}', '\u{0}'),
    ("vartriangleleft;", '\u{22B2}', '\u{0}'),
    ("vartriangleright;", '\u{22B3}', '\u{0}'),
    ("vcy;", '\u{432}', '\u{0}'),
    ("vdash;", '\u{22A2}', '\u{0}'),
    ("vee;", '\u{2228}', '\u{0}'),
    ("veebar;", '\u{22BB}', '\u{0}'),
    ("veeeq;", '\u{225A}', '\u{0}'),
    ("vellip;", '\u{22EE}', '\u{0}'),
    ("verbar;", '|', '\u{0}'),
    ("vert;", '|', '\u{0}'),
    ("vfr;", '\u{1D533}', '\u{0}'),
    ("vltri;", '\u{22B2}', '\u{0}'),
    ("vnsub;", '\u{2282}', '\u{20D2}'),
    ("vnsup;", '\u{2283}', '\u{20D2}'),
    ("vopf;", '\u{1D567}', '\u{0}'),
    ("vprop;", '\u{221D}', '\u{0}'),
    ("vrtri;", '\u{22B3}', '\u{0}'),
    ("vscr;", '\u{1D4CB}', '\u{0}'),
    ("vsubnE;", '\u{2ACB}', '\u{FE00}'),
    ("vsubne;", '\u{228A}', '\u{FE00}'),
    ("vsupnE;", '\u{2ACC}', '\u{FE00}'),
    ("vsupne;", '\u{228B}', '\u{FE00}'),
    ("vzigzag;", '\u{299A}', '\u{0}'),
    ("wcirc;", '\u{175}', '\u{0}'),
    ("wedbar;", '\u{2A5F}', '\u{0}'),
    ("wedge;", '\u{2227}', '\u{0}'),
    ("wedgeq;", '\u{2259}', '\u{0}'),
    ("weierp;", '\u{2118}', '\u{0}'),
    ("wfr;", '\u{1D534}', '\u{0}'),
    ("wopf;", '\u{1D568}', '\u{0}'),
    ("wp;", '\u{2118}', '\u{0}'),
    ("wr;", '\u{2240}', '\u{0}'),
    ("wreath;", '\u{2240}', '\u{0}'),
    ("wscr;", '\u{1D4CC}', '\u{0}'),
    ("xcap;", '\u{22C2}', '\u{0}'),
    ("xcirc;", '\u{25EF}', '\u{0}'),
    ("xcup;", '\u{22C3}', '\u{0}'),
    ("xdtri;", '\u{25BD}', '\u{0}'),
    ("xfr;", '\u{1D535}', '\u{0}'),
    ("xhArr;", '\u{27FA}', '\u{0}'),
    ("xharr;", '\u{27F7}', '\u{0}'),
    ("xi;", '\u{3BE}', '\u{0}'),
    ("xlArr;", '\u{27F8}', '\u{0}'),
    ("xlarr;", '\u{27F5}', '\u{0}'),
    ("xmap;", '\u{27FC}', '\u{0}'),
    ("xnis;", '\u{22FB}', '\u{0}'),
    ("xodot;", '\u{2A00}', '\u{0}'),
    ("xopf;", '\u{1D569}', '\u{0}'),
    ("xoplus;", '\u{2A01}', '\u{0}'),
    ("xotime;", '\u{2A02}', '\u{0}'),
    ("xrArr;", '\u{27F9}', '\u{0}'),
    ("xrarr;", '\u{27F6}', '\u{0}'),
    ("xscr;", '\u{1D4CD}', '\u{0}'),
    ("xsqcup;", '\u{2A06}', '\u{0}'),
    ("xuplus;", '\u{2A04}', '\u{0}'),
    ("xutri;", '\u{25B3}', '\u{0}'),
    ("xvee;", '\u{22C1}', '\u{0}'),
    ("xwedge;", '\u{22C0}', '\u{0}'),
    ("yacute", '\u{FD}', '\u{0}'),
    ("yacute;", '\u{FD}', '\u{0}'),
    ("yacy;", '\u{44F}', '\u{0}'),
    ("ycirc;", '\u{177}', '\u{0}'),
    ("ycy;", '\u{44B}', '\u{0}'),
    ("yen", '\u{A5}', '\u{0}'),
    ("yen;", '\u{A5}', '\u{0}'),
    ("yfr;", '\u{1D536}', '\u{0}'),
    ("yicy;", '\u{457}', '\u{0}'),
    ("yopf;", '\u{1D56A}', '\u{0}'),
    ("yscr;", '\u{1D4CE}', '\u{0}'),
    ("yucy;", '\u{44E}', '\u{0}'),
    ("yuml", '\u{FF}', '\u{0}'),
    ("yuml;", '\u{FF}', '\u{0}'),
    ("zacute;", '\u{17A}', '\u{0}'),
    ("zcaron;", '\u{17E}', '\u{0}'),
    ("zcy;", '\u{437}', '\u{0}'),
    ("zdot;", '\u{17C}', '\u{0}'),
    ("zeetrf;", '\u{2128}', '\u{0}'),
    ("zeta;", '\u{3B6}', '\u{0}'),
    ("zfr;", '\u{1D537}', '\u{0}'),
    ("zhcy;", '\u{436}', '\u{0}'),
    ("zigrarr;", '\u{21DD}', '\u{0}'),
    ("zopf;", '\u{1D56B}', '\u{0}'),
    ("zscr;", '\u{1D4CF}', '\u{0}'),
    ("zwj;", '\u{200D}', '\u{0}'),
    ("zwnj;", '\u{200C}', '\u{0}'),
];

/// The entry of the given index: the tables above, one after the other.
#[verifier::opaque]
pub open spec fn entry(i: int) -> (&'static str, char, char) {
    if i < 245 {
        UPPER_A_TO_K[i]
    } else if i < 634 {
        UPPER_L_TO_Z[i - 245]
    } else if i < 918 {
        LOWER_A_TO_C[i - 634]
    } else if i < 1252 {
        LOWER_D_TO_K[i - 918]
    } else if i < 1614 {
        LOWER_L_TO_N[i - 1252]
    } else if i < 1859 {
        LOWER_O_TO_R[i - 1614]
    } else {
        LOWER_S_TO_Z[i - 1859]
    }
}

/// The entry of the given index: a name, the character that it stands for, and
/// the second character where it stands for two.
pub fn entity(i: usize) -> (e: (&'static str, char, char))
    requires
        i < ENTITY_COUNT,
    ensures
        e == entry(i as int),
{
    reveal(entry);
    if i < 245 {
        UPPER_A_TO_K[i]
    } else if i < 634 {
        UPPER_L_TO_Z[i - 245]
    } else if i < 918 {
        LOWER_A_TO_C[i - 634]
    } else if i < 1252 {
        LOWER_D_TO_K[i - 918]
    } else if i < 1614 {
        LOWER_L_TO_N[i - 1252]
    } else if i < 1859 {
        LOWER_O_TO_R[i - 1614]
    } else {
        LOWER_S_TO_Z[i - 1859]
    }
}

/// The name of an entry, as a sequence of characters.
pub open spec fn entity_name(i: int) -> Seq<char> {
    entry(i).0@
}

/// The one or two characters that an entry stands for.
pub open spec fn entity_text(i: int) -> Seq<char> {
    if entry(i).2 == '\0' {
        seq![entry(i).1]
    } else {
        seq![entry(i).1, entry(i).2]
    }
}

/// Whether `text` begins with the name of entry `i`.
pub open spec fn matches(i: int, text: Seq<char>) -> bool {
    &&& 0 <= i < ENTITY_COUNT
    &&& 0 < entity_name(i).len() <= text.len()
    &&& forall|k: int| 0 <= k < entity_name(i).len() ==> entity_name(i)[k] == text[k]
}

/// The entry with the longest name among the first `n` that `text` begins
/// with; of two as long, the earlier.
pub open spec fn best_among(text: Seq<char>, n: int) -> Option<int>
    decreases n,
{
    if n <= 0 {
        None
    } else {
        let before = best_among(text, n - 1);
        if matches(n - 1, text) && (before is None || entity_name(before->0).len() < entity_name(
            n - 1,
        ).len()) {
            Some(n - 1)
        } else {
            before
        }
    }
}

/// The entry with the longest name that `text` begins with, where there is one.
pub open spec fn longest_match(text: Seq<char>) -> Option<int> {
    best_among(text, ENTITY_COUNT as int)
}

/// What `best_among` picks is an entry that `text` begins with, no entry among
/// the first `n` that `text` begins with has a longer name, and it picks none
/// only where there is none.
pub proof fn best_among_is_longest(text: Seq<char>, n: int)
    requires
        0 <= n <= ENTITY_COUNT,
    ensures
        best_among(text, n) is None ==> forall|j: int| 0 <= j < n ==> !matches(j, text),
        best_among(text, n) matches Some(i) ==> 0 <= i < n && matches(i, text) && forall|j: int|
            0 <= j < n && matches(j, text) ==> entity_name(j).len() <= entity_name(i).len(),
    decreases n,
{
    if n > 0 {
        best_among_is_longest(text, n - 1);
    }
}

/// The entry that `longest_match` picks is one whose name is not empty and
/// no longer than `text`.
pub proof fn longest_match_fits(text: Seq<char>)
    ensures
        longest_match(text) matches Some(i) ==> 0 <= i < ENTITY_COUNT && 0 < entity_name(i).len()
            <= text.len(),
{
    best_among_is_longest(text, ENTITY_COUNT as int);
}

/// Longest match: the entry that `longest_match` picks is one that `text`
/// begins with, and no entry that `text` begins with has a longer name; it
/// picks none only where `text` begins with no name.
pub proof fn longest_match_is_longest(text: Seq<char>)
    ensures
        longest_match(text) is None ==> forall|j: int| !matches(j, text),
        longest_match(text) matches Some(i) ==> matches(i, text) && forall|j: int|
            matches(j, text) ==> entity_name(j).len() <= entity_name(i).len(),
{
    best_among_is_longest(text, ENTITY_COUNT as int);
}

/// The length of `name` where `input` holds it at `pos` and it is not empty.
fn name_at(name: &str, input: &Vec<char>, pos: usize) -> (r: Option<usize>)
    requires
        pos <= input.len(),
    ensures
        r is Some <==> (0 < name@.len() <= input@.skip(pos as int).len() && forall|k: int|
            0 <= k < name@.len() ==> name@[k] == input@.skip(pos as int)[k]),
        r matches Some(n) ==> n == name@.len(),
{
    let n = name.unicode_len();
    if n == 0 || n > input.len() - pos {
        return None;
    }
    let mut k: usize = 0;
    while k < n
        invariant
            k <= n,
            n == name@.len(),
            pos + n <= input.len(),
            forall|j: int| 0 <= j < k ==> name@[j] == input@[pos + j],
        decreases n - k,
    {
        if name.get_char(k) != input[pos + k] {
            assert(name@[k as int] != input@.skip(pos as int)[k as int]);
            return None;
        }
        k += 1;
    }
    Some(n)
}

/// A named character reference found in the input.
pub struct EntityMatch {
    /// The entry's index.
    pub index: usize,
    /// The length of its name.
    pub length: usize,
}

/// The longest named character reference that `input` holds at `pos`.
pub fn find_entity(input: &Vec<char>, pos: usize) -> (r: Option<EntityMatch>)
    requires
        pos <= input.len(),
    ensures
        r is None ==> longest_match(input@.skip(pos as int)) is None,
        r matches Some(found) ==> longest_match(input@.skip(pos as int)) == Some(found.index as int)
            && found.index < ENTITY_COUNT && found.length == entity_name(found.index as int).len()
            && pos + found.length <= input.len() && found.length > 0,
{
    let ghost text = input@.skip(pos as int);
    let mut best: Option<EntityMatch> = None;
    let mut i: usize = 0;
    while i < ENTITY_COUNT
        invariant
            i <= ENTITY_COUNT,
            pos <= input.len(),
            text == input@.skip(pos as int),
            match best {
                Some(found) => best_among(text, i as int) == Some(found.index as int)
                    && found.index < i && found.length == entity_name(found.index as int).len()
                    && pos + found.length <= input.len() && found.length > 0,
                None => best_among(text, i as int) is None,
            },
        decreases ENTITY_COUNT - i,
    {
        let candidate = entity(i);
        let longer = match name_at(candidate.0, input, pos) {
            Some(n) => match &best {
                Some(found) => if found.length < n {
                    Some(n)
                } else {
                    None
                },
                None => Some(n),
            },
            None => None,
        };
        if let Some(n) = longer {
            best = Some(EntityMatch { index: i, length: n });
        }
        i += 1;
    }
    best
}

} // verus!
