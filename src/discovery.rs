use vstd::prelude::*;
use crate::error::BrightnessError;
use crate::protocol::INTERFACE_NUMBER;

verus! {

/// USB vendor ID of the display.
pub const VENDOR_ID: u16 = 0x05ac;

/// USB product ID of the display.
pub const PRODUCT_ID: u16 = 0x1114;

/// Name pattern of the stable device nodes that the display's driver creates.
pub const DISPLAY_NODE_PATTERN: &'static str = "asdbl-[0-9A-F]{8}-[0-9A-F]{16}$";

#[verifier::external_type_specification]
#[verifier::external_body]
pub struct ExRegex(regex::Regex);

#[verifier::external_type_specification]
#[verifier::external_body]
pub struct ExRegexError(regex::Error);

/// Whether the regular expression `pattern` matches somewhere in `haystack`.
pub uninterp spec fn regex_matches(pattern: Seq<char>, haystack: Seq<char>) -> bool;

/// Whether `pattern` is a valid regular expression that the regex crate
/// compiles within its default limits.
pub uninterp spec fn regex_compiles(pattern: Seq<char>) -> bool;

/// A compiled regular expression together with the pattern it was compiled
/// from.
pub struct NodePattern {
    regex: regex::Regex,
    source: Ghost<Seq<char>>,
}

impl NodePattern {
    /// The pattern this was compiled from.
    pub closed spec fn source(&self) -> Seq<char> {
        self.source@
    }

    /// Relies on regex::Regex::new, which compiles `pattern` or says why not;
    /// whether it succeeds depends on the pattern alone.
    #[verifier::external_body]
    fn compile(pattern: &str) -> (r: Result<NodePattern, regex::Error>)
        ensures
            r is Ok <==> regex_compiles(pattern@),
            r matches Ok(p) ==> p.source() == pattern@,
    {
        match regex::Regex::new(pattern) {
            Ok(regex) => Ok(NodePattern { regex, source: Ghost(pattern@) }),
            Err(e) => Err(e),
        }
    }

    /// Compiles the pattern of the display's device nodes.
    pub fn display_nodes() -> (r: Result<NodePattern, BrightnessError>)
        ensures
            r is Ok <==> regex_compiles(DISPLAY_NODE_PATTERN@),
            r matches Ok(p) ==> p.source() == DISPLAY_NODE_PATTERN@,
            r matches Err(e) ==> e == BrightnessError::InvalidPattern,
    {
        match NodePattern::compile(DISPLAY_NODE_PATTERN) {
            Ok(pattern) => Ok(pattern),
            Err(_) => Err(BrightnessError::InvalidPattern),
        }
    }

    /// Relies on regex::Regex::is_match: whether the compiled pattern, which
    /// is `source` (only `compile` builds a `NodePattern`, from the regex it
    /// compiled and that regex's pattern), matches somewhere in `haystack`.
    #[verifier::external_body]
    fn is_match(&self, haystack: &str) -> (r: bool)
        ensures
            r == regex_matches(self.source(), haystack@),
    {
        self.regex.is_match(haystack)
    }
}

/// The views of a sequence of strings.
pub open spec fn string_views(v: Seq<String>) -> Seq<Seq<char>> {
    v.map_values(|s: String| s@)
}

/// The paths among `paths` that `pattern` matches, in their order.
pub open spec fn matching_paths(pattern: Seq<char>, paths: Seq<Seq<char>>) -> Seq<Seq<char>>
    decreases paths.len(),
{
    if paths.len() == 0 {
        Seq::empty()
    } else {
        let rest = matching_paths(pattern, paths.drop_last());
        if regex_matches(pattern, paths.last()) {
            rest.push(paths.last())
        } else {
            rest
        }
    }
}

/// Keeps the paths that `pattern` matches, in their order.
pub fn select_paths(pattern: &NodePattern, paths: &Vec<String>) -> (r: Vec<String>)
    ensures
        string_views(r@) == matching_paths(pattern.source(), string_views(paths@)),
{
    let mut selected: Vec<String> = Vec::new();
    let mut i: usize = 0;
    while i < paths.len()
        invariant
            i <= paths.len(),
            string_views(selected@) == matching_paths(
                pattern.source(),
                string_views(paths@.take(i as int)),
            ),
        decreases paths.len() - i,
    {
        let ghost before = selected@;
        assert(string_views(paths@.take(i + 1)).drop_last() =~= string_views(paths@.take(i as int)));
        if pattern.is_match(paths[i].as_str()) {
            selected.push(paths[i].clone());
            assert(string_views(selected@) =~= string_views(before).push(paths@[i as int]@));
        }
        i = i + 1;
    }
    assert(paths@.take(paths.len() as int) =~= paths@);
    selected
}

/// Lists the display's device nodes among the paths of a device directory.
pub fn list_displays(paths: &Vec<String>) -> (r: Result<Vec<String>, BrightnessError>)
    ensures
        r is Ok <==> regex_compiles(DISPLAY_NODE_PATTERN@),
        r matches Ok(v) ==> string_views(v@) == matching_paths(DISPLAY_NODE_PATTERN@, string_views(paths@)),
        r matches Err(e) ==> e == BrightnessError::InvalidPattern,
{
    let pattern = NodePattern::display_nodes()?;
    Ok(select_paths(&pattern, paths))
}

/// What HID enumeration tells of one attached device.
#[derive(Debug)]
pub struct HidDeviceEntry {
    pub vendor_id: u16,
    pub product_id: u16,
    pub interface_number: i32,
    pub path: String,
}

/// `e` is the display's brightness interface.
pub open spec fn is_display(e: HidDeviceEntry) -> bool {
    &&& e.vendor_id == VENDOR_ID
    &&& e.product_id == PRODUCT_ID
    &&& e.interface_number == INTERFACE_NUMBER
}

/// The paths of the display interfaces among `devices`, in their order.
pub open spec fn display_paths(devices: Seq<HidDeviceEntry>) -> Seq<Seq<char>>
    decreases devices.len(),
{
    if devices.len() == 0 {
        Seq::empty()
    } else {
        let rest = display_paths(devices.drop_last());
        if is_display(devices.last()) {
            rest.push(devices.last().path@)
        } else {
            rest
        }
    }
}

/// Lists the paths of the display interfaces among the enumerated devices.
pub fn list_displays_hapi(devices: &Vec<HidDeviceEntry>) -> (r: Vec<String>)
    ensures
        string_views(r@) == display_paths(devices@),
{
    let mut selected: Vec<String> = Vec::new();
    let mut i: usize = 0;
    while i < devices.len()
        invariant
            i <= devices.len(),
            string_views(selected@) == display_paths(devices@.take(i as int)),
        decreases devices.len() - i,
    {
        let ghost before = selected@;
        assert(devices@.take(i + 1).drop_last() =~= devices@.take(i as int));
        let d = &devices[i];
        if d.vendor_id == VENDOR_ID && d.product_id == PRODUCT_ID
            && d.interface_number == INTERFACE_NUMBER as i32 {
            selected.push(d.path.clone());
            assert(string_views(selected@) =~= string_views(before).push(d.path@));
        }
        i = i + 1;
    }
    assert(devices@.take(devices.len() as int) =~= devices@);
    selected
}

/// Enumeration yields no path exactly when no enumerated device is the
/// display's brightness interface.
pub proof fn lemma_no_display_no_paths(devices: Seq<HidDeviceEntry>)
    ensures
        display_paths(devices).len() == 0 <==> forall|i: int|
            0 <= i < devices.len() ==> !is_display(#[trigger] devices[i]),
    decreases devices.len(),
{
    if devices.len() > 0 {
        let init = devices.drop_last();
        lemma_no_display_no_paths(init);
        assert forall|i: int| 0 <= i < init.len() implies init[i] == devices[i] by {}
        if display_paths(devices).len() == 0 {
            assert forall|i: int| 0 <= i < devices.len() implies !is_display(
                #[trigger] devices[i],
            ) by {
                if i < init.len() {
                    assert(init[i] == devices[i]);
                }
            }
        }
    }
}

/// Picks the first of the candidate paths; with none, the display is not
/// attached.
pub fn first_display(candidates: &Vec<String>) -> (r: Result<String, BrightnessError>)
    ensures
        candidates@.len() == 0 <==> r == Err::<String, BrightnessError>(BrightnessError::DeviceNotFound),
        r matches Ok(s) ==> candidates@.len() > 0 && s@ == candidates@[0]@,
{
    if candidates.len() == 0 {
        Err(BrightnessError::DeviceNotFound)
    } else {
        Ok(candidates[0].clone())
    }
}

/// Chooses the display: the first device node when there is one, else the
/// first display interface among the enumerated devices; with neither, the
/// display is not attached.
pub fn choose_display(nodes: &Vec<String>, devices: &Vec<HidDeviceEntry>) -> (r: Result<
    String,
    BrightnessError,
>)
    ensures
        nodes@.len() > 0 ==> (r matches Ok(s) && s@ == nodes@[0]@),
        nodes@.len() == 0 ==> (display_paths(devices@).len() == 0 <==> r == Err::<
            String,
            BrightnessError,
        >(BrightnessError::DeviceNotFound)),
        nodes@.len() == 0 ==> (r matches Ok(s) ==> display_paths(devices@).len() > 0 && s@
            == display_paths(devices@)[0]),
{
    if nodes.len() > 0 {
        Ok(nodes[0].clone())
    } else {
        let paths = list_displays_hapi(devices);
        proof {
            if paths@.len() > 0 {
                assert(string_views(paths@)[0] == paths@[0]@);
            }
        }
        first_display(&paths)
    }
}

} // verus!
