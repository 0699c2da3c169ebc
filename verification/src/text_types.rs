//! The static suffix tables that drive attachment classification: a
//! three-entry set of static raster-image suffixes, and a large
//! allow-list of text-like file suffixes.
use vstd::prelude::*;

verus! {

/// The image suffixes the vision model accepts: static raster formats
/// only; animatable formats are deliberately left out.
pub open spec fn image_suffixes() -> Seq<Seq<char>> {
    seq![".jpg"@, ".jpeg"@, ".png"@]
}

pub open spec fn text_suffixes_a() -> Seq<Seq<char>> {
    seq![
        ".txt"@,
        ".json"@,
        ".md"@,
        ".adb"@,
        ".ads"@,
        ".ahk"@,
        ".applescript"@,
        ".scpt"@,
        ".scptd"@,
        ".as"@,
        ".au3"@,
        ".awk"@,
        ".bat"@,
        ".bas"@,
        ".btm"@,
        ".class"@,
        ".cljs"@,
        ".cmd"@,
        ".coffee"@,
        ".c"@,
        ".cia"@,
        ".cpp"@,
        ".cs"@,
        ".fs"@,
        ".egg"@,
    ]
}

pub open spec fn text_suffixes_b() -> Seq<Seq<char>> {
    seq![
        ".egt"@,
        ".erb"@,
        ".go"@,
        ".hta"@,
        ".ibi"@,
        ".ici"@,
        ".ijs"@,
        ".ino"@,
        ".ipynb"@,
        ".itcl"@,
        ".js"@,
        ".jsfl"@,
        ".kt"@,
        ".lua"@,
        ".m"@,
        ".mrc"@,
        ".ncf"@,
        ".nuc"@,
        ".nud"@,
        ".nut"@,
        ".nqp"@,
        ".o"@,
        ".pde"@,
        ".php"@,
        ".pl"@,
    ]
}

pub open spec fn text_suffixes_c() -> Seq<Seq<char>> {
    seq![
        ".pm"@,
        ".ps1"@,
        ".ps1xml"@,
        ".psc1"@,
        ".psd1"@,
        ".psm1"@,
        ".py"@,
        ".pyc"@,
        ".pyo"@,
        ".r"@,
        ".rb"@,
        ".rdp"@,
        ".red"@,
        ".rs"@,
        ".sb2"@,
        ".sb3"@,
        ".scpt"@,
        ".scptd"@,
        ".sdl"@,
        ".sh"@,
        ".sprite3"@,
        ".spwn"@,
        ".syjs"@,
        ".sypy"@,
        ".tcl"@,
    ]
}

pub open spec fn text_suffixes_d() -> Seq<Seq<char>> {
    seq![
        ".tns"@,
        ".ts"@,
        ".vbs"@,
        ".xpl"@,
        ".ebuild"@,
        ".csv"@,
        ".html"@,
        ".css"@,
        ".ini"@,
        ".tsv"@,
        ".yaml"@,
        ".rst"@,
        ".adoc"@,
        ".asciidoc"@,
        ".yni"@,
        ".cnf"@,
        ".conf"@,
        ".cfg"@,
        ".log"@,
        ".asc"@,
        ".text"@,
        ".ADA"@,
        ".ADB"@,
        ".ADS"@,
        ".ASM"@,
    ]
}

pub open spec fn text_suffixes_e() -> Seq<Seq<char>> {
    seq![
        ".S"@,
        ".BAS"@,
        ".BB"@,
        ".BMX"@,
        ".C"@,
        ".CLJ"@,
        ".CLS"@,
        ".COB"@,
        ".CBL"@,
        ".CPP"@,
        ".CC"@,
        ".CXX"@,
        ".CBP"@,
        ".CS"@,
        ".CSPROJ"@,
        ".D"@,
        ".DBA"@,
        ".DBPro123"@,
        ".E"@,
        ".EFS"@,
        ".EGT"@,
        ".EL"@,
        ".FOR"@,
        ".FTN"@,
        ".F"@,
    ]
}

pub open spec fn text_suffixes_f() -> Seq<Seq<char>> {
    seq![
        ".F77"@,
        ".F90"@,
        ".FRM"@,
        ".FRX"@,
        ".FTH"@,
        ".GED"@,
        ".GM6"@,
        ".GMD"@,
        ".GMK"@,
        ".GML"@,
        ".GO"@,
        ".H"@,
        ".HPP"@,
        ".HXX"@,
        ".HS"@,
        ".HX"@,
        ".I"@,
        ".INC"@,
        ".JAVA"@,
        ".JS"@,
        ".L"@,
        ".LGT"@,
        ".LISP"@,
        ".M"@,
        ".M4"@,
    ]
}

pub open spec fn text_suffixes_g() -> Seq<Seq<char>> {
    seq![
        ".ML"@,
        ".MSQR"@,
        ".N"@,
        ".NB"@,
        ".P"@,
        ".PAS"@,
        ".PP"@,
        ".PHP"@,
        ".PHP3"@,
        ".PHP4"@,
        ".PHP5"@,
        ".PHPS"@,
        ".Phtml"@,
        ".PIV"@,
        ".PL"@,
        ".PM"@,
        ".PLI"@,
        ".PL1"@,
        ".PRG"@,
        ".PRO"@,
        ".POL"@,
        ".PY"@,
        ".R"@,
        ".raku"@,
        ".rakumod"@,
    ]
}

pub open spec fn text_suffixes_h() -> Seq<Seq<char>> {
    seq![
        ".rakudoc"@,
        ".rakutest"@,
        ".nqp"@,
        ".RED"@,
        ".REDS"@,
        ".RB"@,
        ".RESX"@,
        ".RC"@,
        ".RC2"@,
        ".RKT"@,
        ".RKTL"@,
        ".RS"@,
        ".SCALA"@,
        ".SCI"@,
        ".SCE"@,
        ".SCM"@,
        ".SD7"@,
        ".SKB"@,
        ".SKC"@,
        ".SKD"@,
        ".SKF"@,
        ".SKG"@,
        ".SKI"@,
        ".SKK"@,
        ".SKM"@,
    ]
}

pub open spec fn text_suffixes_i() -> Seq<Seq<char>> {
    seq![
        ".SKO"@,
        ".SKP"@,
        ".SKQ"@,
        ".SKS"@,
        ".SKT"@,
        ".SKZ"@,
        ".SLN"@,
        ".SPIN"@,
        ".STK"@,
        ".SWG"@,
        ".TCL"@,
        ".VAP"@,
        ".VB"@,
        ".VBG"@,
        ".VBP"@,
        ".VIP"@,
        ".VBPROJ"@,
        ".VCPROJ"@,
        ".VDPROJ"@,
        ".XPL"@,
        ".XQ"@,
        ".XSL"@,
        ".Y"@,
    ]
}

/// The text-like suffixes, in the order `get_text_type` lists them.
pub open spec fn text_suffixes() -> Seq<Seq<char>> {
    text_suffixes_a() + text_suffixes_b() + text_suffixes_c() + text_suffixes_d() + text_suffixes_e() + text_suffixes_f() + text_suffixes_g() + text_suffixes_h() + text_suffixes_i()
}

/// The three static raster-image suffixes, in table order.
pub fn get_image_type() -> (r: Vec<&'static str>)
    ensures
        r@.map_values(|s: &str| s@) == image_suffixes(),
{
    let mut v: Vec<&'static str> = Vec::new();
    v.push(".jpg");
    v.push(".jpeg");
    v.push(".png");
    proof {
        assert(v@.map_values(|s: &str| s@) =~= image_suffixes());
    }
    v
}

fn text_group_a() -> (r: Vec<&'static str>)
    ensures
        r@.map_values(|s: &str| s@) == text_suffixes_a(),
{
    let mut v: Vec<&'static str> = Vec::new();
    v.push(".txt");
    v.push(".json");
    v.push(".md");
    v.push(".adb");
    v.push(".ads");
    v.push(".ahk");
    v.push(".applescript");
    v.push(".scpt");
    v.push(".scptd");
    v.push(".as");
    v.push(".au3");
    v.push(".awk");
    v.push(".bat");
    v.push(".bas");
    v.push(".btm");
    v.push(".class");
    v.push(".cljs");
    v.push(".cmd");
    v.push(".coffee");
    v.push(".c");
    v.push(".cia");
    v.push(".cpp");
    v.push(".cs");
    v.push(".fs");
    v.push(".egg");
    proof {
        assert(v@.map_values(|s: &str| s@) =~= text_suffixes_a());
    }
    v
}

fn text_group_b() -> (r: Vec<&'static str>)
    ensures
        r@.map_values(|s: &str| s@) == text_suffixes_b(),
{
    let mut v: Vec<&'static str> = Vec::new();
    v.push(".egt");
    v.push(".erb");
    v.push(".go");
    v.push(".hta");
    v.push(".ibi");
    v.push(".ici");
    v.push(".ijs");
    v.push(".ino");
    v.push(".ipynb");
    v.push(".itcl");
    v.push(".js");
    v.push(".jsfl");
    v.push(".kt");
    v.push(".lua");
    v.push(".m");
    v.push(".mrc");
    v.push(".ncf");
    v.push(".nuc");
    v.push(".nud");
    v.push(".nut");
    v.push(".nqp");
    v.push(".o");
    v.push(".pde");
    v.push(".php");
    v.push(".pl");
    proof {
        assert(v@.map_values(|s: &str| s@) =~= text_suffixes_b());
    }
    v
}

fn text_group_c() -> (r: Vec<&'static str>)
    ensures
        r@.map_values(|s: &str| s@) == text_suffixes_c(),
{
    let mut v: Vec<&'static str> = Vec::new();
    v.push(".pm");
    v.push(".ps1");
    v.push(".ps1xml");
    v.push(".psc1");
    v.push(".psd1");
    v.push(".psm1");
    v.push(".py");
    v.push(".pyc");
    v.push(".pyo");
    v.push(".r");
    v.push(".rb");
    v.push(".rdp");
    v.push(".red");
    v.push(".rs");
    v.push(".sb2");
    v.push(".sb3");
    v.push(".scpt");
    v.push(".scptd");
    v.push(".sdl");
    v.push(".sh");
    v.push(".sprite3");
    v.push(".spwn");
    v.push(".syjs");
    v.push(".sypy");
    v.push(".tcl");
    proof {
        assert(v@.map_values(|s: &str| s@) =~= text_suffixes_c());
    }
    v
}

fn text_group_d() -> (r: Vec<&'static str>)
    ensures
        r@.map_values(|s: &str| s@) == text_suffixes_d(),
{
    let mut v: Vec<&'static str> = Vec::new();
    v.push(".tns");
    v.push(".ts");
    v.push(".vbs");
    v.push(".xpl");
    v.push(".ebuild");
    v.push(".csv");
    v.push(".html");
    v.push(".css");
    v.push(".ini");
    v.push(".tsv");
    v.push(".yaml");
    v.push(".rst");
    v.push(".adoc");
    v.push(".asciidoc");
    v.push(".yni");
    v.push(".cnf");
    v.push(".conf");
    v.push(".cfg");
    v.push(".log");
    v.push(".asc");
    v.push(".text");
    v.push(".ADA");
    v.push(".ADB");
    v.push(".ADS");
    v.push(".ASM");
    proof {
        assert(v@.map_values(|s: &str| s@) =~= text_suffixes_d());
    }
    v
}

fn text_group_e() -> (r: Vec<&'static str>)
    ensures
        r@.map_values(|s: &str| s@) == text_suffixes_e(),
{
    let mut v: Vec<&'static str> = Vec::new();
    v.push(".S");
    v.push(".BAS");
    v.push(".BB");
    v.push(".BMX");
    v.push(".C");
    v.push(".CLJ");
    v.push(".CLS");
    v.push(".COB");
    v.push(".CBL");
    v.push(".CPP");
    v.push(".CC");
    v.push(".CXX");
    v.push(".CBP");
    v.push(".CS");
    v.push(".CSPROJ");
    v.push(".D");
    v.push(".DBA");
    v.push(".DBPro123");
    v.push(".E");
    v.push(".EFS");
    v.push(".EGT");
    v.push(".EL");
    v.push(".FOR");
    v.push(".FTN");
    v.push(".F");
    proof {
        assert(v@.map_values(|s: &str| s@) =~= text_suffixes_e());
    }
    v
}

fn text_group_f() -> (r: Vec<&'static str>)
    ensures
        r@.map_values(|s: &str| s@) == text_suffixes_f(),
{
    let mut v: Vec<&'static str> = Vec::new();
    v.push(".F77");
    v.push(".F90");
    v.push(".FRM");
    v.push(".FRX");
    v.push(".FTH");
    v.push(".GED");
    v.push(".GM6");
    v.push(".GMD");
    v.push(".GMK");
    v.push(".GML");
    v.push(".GO");
    v.push(".H");
    v.push(".HPP");
    v.push(".HXX");
    v.push(".HS");
    v.push(".HX");
    v.push(".I");
    v.push(".INC");
    v.push(".JAVA");
    v.push(".JS");
    v.push(".L");
    v.push(".LGT");
    v.push(".LISP");
    v.push(".M");
    v.push(".M4");
    proof {
        assert(v@.map_values(|s: &str| s@) =~= text_suffixes_f());
    }
    v
}

fn text_group_g() -> (r: Vec<&'static str>)
    ensures
        r@.map_values(|s: &str| s@) == text_suffixes_g(),
{
    let mut v: Vec<&'static str> = Vec::new();
    v.push(".ML");
    v.push(".MSQR");
    v.push(".N");
    v.push(".NB");
    v.push(".P");
    v.push(".PAS");
    v.push(".PP");
    v.push(".PHP");
    v.push(".PHP3");
    v.push(".PHP4");
    v.push(".PHP5");
    v.push(".PHPS");
    v.push(".Phtml");
    v.push(".PIV");
    v.push(".PL");
    v.push(".PM");
    v.push(".PLI");
    v.push(".PL1");
    v.push(".PRG");
    v.push(".PRO");
    v.push(".POL");
    v.push(".PY");
    v.push(".R");
    v.push(".raku");
    v.push(".rakumod");
    proof {
        assert(v@.map_values(|s: &str| s@) =~= text_suffixes_g());
    }
    v
}

fn text_group_h() -> (r: Vec<&'static str>)
    ensures
        r@.map_values(|s: &str| s@) == text_suffixes_h(),
{
    let mut v: Vec<&'static str> = Vec::new();
    v.push(".rakudoc");
    v.push(".rakutest");
    v.push(".nqp");
    v.push(".RED");
    v.push(".REDS");
    v.push(".RB");
    v.push(".RESX");
    v.push(".RC");
    v.push(".RC2");
    v.push(".RKT");
    v.push(".RKTL");
    v.push(".RS");
    v.push(".SCALA");
    v.push(".SCI");
    v.push(".SCE");
    v.push(".SCM");
    v.push(".SD7");
    v.push(".SKB");
    v.push(".SKC");
    v.push(".SKD");
    v.push(".SKF");
    v.push(".SKG");
    v.push(".SKI");
    v.push(".SKK");
    v.push(".SKM");
    proof {
        assert(v@.map_values(|s: &str| s@) =~= text_suffixes_h());
    }
    v
}

fn text_group_i() -> (r: Vec<&'static str>)
    ensures
        r@.map_values(|s: &str| s@) == text_suffixes_i(),
{
    let mut v: Vec<&'static str> = Vec::new();
    v.push(".SKO");
    v.push(".SKP");
    v.push(".SKQ");
    v.push(".SKS");
    v.push(".SKT");
    v.push(".SKZ");
    v.push(".SLN");
    v.push(".SPIN");
    v.push(".STK");
    v.push(".SWG");
    v.push(".TCL");
    v.push(".VAP");
    v.push(".VB");
    v.push(".VBG");
    v.push(".VBP");
    v.push(".VIP");
    v.push(".VBPROJ");
    v.push(".VCPROJ");
    v.push(".VDPROJ");
    v.push(".XPL");
    v.push(".XQ");
    v.push(".XSL");
    v.push(".Y");
    proof {
        assert(v@.map_values(|s: &str| s@) =~= text_suffixes_i());
    }
    v
}

/// The allow-list of text-like suffixes: plain text and markup, scripting
/// and programming sources, and common configuration formats.
pub fn get_text_type() -> (r: Vec<&'static str>)
    ensures
        r@.map_values(|s: &str| s@) == text_suffixes(),
{
    let mut v: Vec<&'static str> = Vec::new();
    let mut g_a = text_group_a();
    let ghost s_a = g_a@;
    v.append(&mut g_a);
    let mut g_b = text_group_b();
    let ghost s_b = g_b@;
    v.append(&mut g_b);
    let mut g_c = text_group_c();
    let ghost s_c = g_c@;
    v.append(&mut g_c);
    let mut g_d = text_group_d();
    let ghost s_d = g_d@;
    v.append(&mut g_d);
    let mut g_e = text_group_e();
    let ghost s_e = g_e@;
    v.append(&mut g_e);
    let mut g_f = text_group_f();
    let ghost s_f = g_f@;
    v.append(&mut g_f);
    let mut g_g = text_group_g();
    let ghost s_g = g_g@;
    v.append(&mut g_g);
    let mut g_h = text_group_h();
    let ghost s_h = g_h@;
    v.append(&mut g_h);
    let mut g_i = text_group_i();
    let ghost s_i = g_i@;
    v.append(&mut g_i);
    proof {
        assert(v@ == s_a + s_b + s_c + s_d + s_e + s_f + s_g + s_h + s_i);
        assert(v@.map_values(|s: &str| s@) =~= text_suffixes());
    }
    v
}

} // verus!
