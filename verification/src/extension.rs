//! Extensions: what the runtime offers, what is required, and whether the
//! one covers the other.

use vstd::prelude::*;
use vstd::string::*;
use crate::name::{name_text, read_name};

verus! {

/// The core surface extension.
pub const SURFACE_EXTENSION: &'static str = "VK_KHR_surface";

/// The surface extension of the one platform that is supported.
pub const PLATFORM_SURFACE_EXTENSION: &'static str = "VK_KHR_win32_surface";

/// The diagnostics extension that debug builds ask for.
pub const DEBUG_EXTENSION: &'static str = "VK_EXT_debug_utils";

/// The presentation extension that every device must offer.
pub const SWAPCHAIN_EXTENSION: &'static str = "VK_KHR_swapchain";

/// One extension that the runtime offers.
#[derive(Debug, Clone)]
pub struct ExtensionProperties {
    pub extension_name: String,
    pub spec_version: u32,
}

impl ExtensionProperties {
    /// Reads one record of an enumeration: the name from its fixed-length
    /// buffer, up to the terminator, and the version as it stands.
    pub fn from_raw(extension_name: &[u8], spec_version: u32) -> (props: ExtensionProperties)
        ensures
            props.extension_name@ == name_text(extension_name@),
            props.spec_version == spec_version,
    {
        ExtensionProperties { extension_name: read_name(extension_name), spec_version }
    }

    /// The name of the extension.
    pub fn extension_name(&self) -> (name: &str)
        ensures
            name@ == self.extension_name@,
    {
        self.extension_name.as_str()
    }

    /// The version of the extension's specification.
    pub fn spec_version(&self) -> (version: u32)
        ensures
            version == self.spec_version,
    {
        self.spec_version
    }
}

/// The texts of a list of strings.
pub open spec fn texts(names: Seq<String>) -> Seq<Seq<char>> {
    names.map_values(|s: String| s@)
}

/// The names of a list of offered extensions.
pub open spec fn offered(available: Seq<ExtensionProperties>) -> Seq<Seq<char>> {
    available.map_values(|e: ExtensionProperties| e.extension_name@)
}

/// The names among `required` that `available` lacks, in the order of
/// `required`. Names match only where they are equal character by character.
pub open spec fn missing(required: Seq<Seq<char>>, available: Seq<Seq<char>>) -> Seq<Seq<char>> {
    required.filter(|name: Seq<char>| !available.contains(name))
}

/// Every required name is among the available ones.
pub open spec fn covers(available: Seq<Seq<char>>, required: Seq<Seq<char>>) -> bool {
    forall|i: int| 0 <= i < required.len() ==> available.contains(#[trigger] required[i])
}

/// Nothing is missing exactly where every required name is available.
pub proof fn lemma_missing_empty(required: Seq<Seq<char>>, available: Seq<Seq<char>>)
    ensures
        missing(required, available).len() == 0 <==> covers(available, required),
    decreases required.len(),
{
    reveal(Seq::filter);
    if required.len() > 0 {
        let front = required.drop_last();
        lemma_missing_empty(front, available);
        if covers(available, required) {
            assert forall|i: int| 0 <= i < front.len() implies available.contains(
                #[trigger] front[i],
            ) by {
                assert(front[i] == required[i]);
            }
        }
        if covers(available, front) && available.contains(required.last()) {
            assert forall|i: int| 0 <= i < required.len() implies available.contains(
                #[trigger] required[i],
            ) by {
                if i < front.len() {
                    assert(front[i] == required[i]);
                }
            }
        }
    }
}

/// Whether the runtime offers an extension of exactly this name.
pub fn is_offered(name: &String, available: &Vec<ExtensionProperties>) -> (found: bool)
    ensures
        found == offered(available@).contains(name@),
{
    let mut i: usize = 0;
    while i < available.len()
        invariant
            i <= available.len(),
            forall|j: int| 0 <= j < i ==> available@[j].extension_name@ != name@,
        decreases available.len() - i,
    {
        if available[i].extension_name == *name {
            assert(offered(available@)[i as int] == name@);
            return true;
        }
        i = i + 1;
    }
    assert forall|j: int| 0 <= j < offered(available@).len() implies offered(available@)[j]
        != name@ by {
        assert(offered(available@)[j] == available@[j].extension_name@);
    }
    false
}

/// The required extensions that the runtime does not offer.
#[derive(Debug, Clone)]
pub struct MissingExtensions {
    pub names: Vec<String>,
}

/// The names in one line, with a comma and a space between two of them.
pub open spec fn joined(names: Seq<Seq<char>>) -> Seq<char>
    decreases names.len(),
{
    if names.len() == 0 {
        Seq::empty()
    } else if names.len() == 1 {
        names[0]
    } else {
        joined(names.drop_last()) + seq![',', ' '] + names.last()
    }
}

impl MissingExtensions {
    /// The missing names in one line, in their order.
    pub fn list(&self) -> (line: String)
        ensures
            line@ == joined(texts(self.names@)),
    {
        let mut line = String::new();
        let mut i: usize = 0;
        while i < self.names.len()
            invariant
                i <= self.names.len(),
                line@ == joined(texts(self.names@).take(i as int)),
            decreases self.names.len() - i,
        {
            let ghost before = texts(self.names@).take(i as int);
            let ghost after = texts(self.names@).take(i + 1);
            assert(after.drop_last() =~= before);
            assert(after.last() == self.names@[i as int]@);
            if i > 0 {
                proof {
                    reveal_strlit(", ");
                }
                line.append(", ");
            }
            line.append(self.names[i].as_str());
            assert(after.len() == i + 1);
            assert(line@ =~= joined(after));
            i = i + 1;
        }
        assert(texts(self.names@).take(i as int) =~= texts(self.names@));
        line
    }
}

/// Holds the required extensions against the available ones. It succeeds
/// exactly where each required name is the name of an available extension;
/// otherwise it names every required extension that is missing, in order.
pub fn negotiate(required: &Vec<String>, available: &Vec<ExtensionProperties>) -> (outcome: Result<
    (),
    MissingExtensions,
>)
    ensures
        outcome is Ok <==> covers(offered(available@), texts(required@)),
        outcome matches Err(e) ==> texts(e.names@) == missing(
            texts(required@),
            offered(available@),
        ),
{
    let ghost want = texts(required@);
    let ghost have = offered(available@);
    let mut names: Vec<String> = Vec::new();
    let mut i: usize = 0;
    while i < required.len()
        invariant
            i <= required.len(),
            want == texts(required@),
            have == offered(available@),
            texts(names@) == missing(want.take(i as int), have),
        decreases required.len() - i,
    {
        let ghost before = texts(names@);
        let found = is_offered(&required[i], available);
        if !found {
            names.push(required[i].clone());
        }
        proof {
            reveal(Seq::filter);
            let next = want.take(i + 1);
            assert(next.drop_last() =~= want.take(i as int));
            assert(next.last() == required@[i as int]@);
            if found {
                assert(texts(names@) =~= missing(next, have));
            } else {
                assert(texts(names@) =~= before.push(required@[i as int]@));
                assert(texts(names@) =~= missing(next, have));
            }
        }
        i = i + 1;
    }
    proof {
        assert(want.take(i as int) =~= want);
        lemma_missing_empty(want, have);
    }
    if names.len() == 0 {
        Ok(())
    } else {
        Err(MissingExtensions { names })
    }
}

/// The names that an instance must be created with: the core surface
/// extension, the platform's surface extension and, in a debug configuration
/// only, the diagnostics extension.
pub open spec fn instance_extension_names(debug: bool) -> Seq<Seq<char>> {
    if debug {
        seq![SURFACE_EXTENSION@, PLATFORM_SURFACE_EXTENSION@, DEBUG_EXTENSION@]
    } else {
        seq![SURFACE_EXTENSION@, PLATFORM_SURFACE_EXTENSION@]
    }
}

/// The names that a device must be created with: the presentation extension.
pub open spec fn device_extension_names() -> Seq<Seq<char>> {
    seq![SWAPCHAIN_EXTENSION@]
}

/// The extensions that an instance requires.
pub fn required_instance_extensions(debug: bool) -> (required: Vec<String>)
    ensures
        texts(required@) == instance_extension_names(debug),
{
    let mut required: Vec<String> = Vec::new();
    required.push(SURFACE_EXTENSION.to_owned());
    required.push(PLATFORM_SURFACE_EXTENSION.to_owned());
    if debug {
        required.push(DEBUG_EXTENSION.to_owned());
    }
    assert(texts(required@) =~= instance_extension_names(debug));
    required
}

/// The extensions that a device requires.
pub fn required_device_extensions() -> (required: Vec<String>)
    ensures
        texts(required@) == device_extension_names(),
{
    let mut required: Vec<String> = Vec::new();
    required.push(SWAPCHAIN_EXTENSION.to_owned());
    assert(texts(required@) =~= device_extension_names());
    required
}

} // verus!
