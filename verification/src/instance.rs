//! The instance: the top-level context of the native API, and the steps that
//! lead to one.

use vstd::prelude::*;
use vstd::string::*;
use crate::error::{check, message_text, result_description, Error, SUCCESS};
use crate::extension::{
    covers, instance_extension_names, joined, missing, negotiate, offered, required_instance_extensions,
    texts, ExtensionProperties, MissingExtensions,
};
use crate::loader::{DynamicLibrary, SymbolAddress};

verus! {

/// The well-known name of the runtime library on the supported platform.
pub const LIBRARY_PATH: &'static str = "vulkan-1.dll";

/// The bootstrap symbol, from which every other entry point is retrieved.
pub const ENTRY_POINT: &'static str = "vkGetInstanceProcAddr";

/// The name that the application gives of itself.
pub const APPLICATION_NAME: &'static str = "Vulkan Tutorial";

/// The name that the engine gives of itself.
pub const ENGINE_NAME: &'static str = "Tanelorn Engine";

/// A version as the native API packs it into one word.
pub open spec fn packed_version(variant: u32, major: u32, minor: u32, patch: u32) -> u32 {
    (variant << 29) | (major << 22) | (minor << 12) | patch
}

/// `ash::vk::make_api_version` packs the four parts of a version into one
/// word: the variant from bit 29 up, the major number from bit 22, the minor
/// number from bit 12, the patch number below.
pub assume_specification[ ash::vk::make_api_version ](
    variant: u32,
    major: u32,
    minor: u32,
    patch: u32,
) -> (version: u32)
    ensures
        version == packed_version(variant, major, minor, patch),
;

/// What an instance tells the runtime of the application.
#[derive(Debug, Clone)]
pub struct ApplicationInfo {
    pub application_name: String,
    pub application_version: u32,
    pub engine_name: String,
    pub engine_version: u32,
    pub api_version: u32,
}

impl ApplicationInfo {
    /// The application and the engine at version 0.1.0, on version 1.0 of the
    /// native API.
    pub open spec fn standard(&self) -> bool {
        &&& self.application_name@ == APPLICATION_NAME@
        &&& self.application_version == packed_version(0, 0, 1, 0)
        &&& self.engine_name@ == ENGINE_NAME@
        &&& self.engine_version == packed_version(0, 0, 1, 0)
        &&& self.api_version == packed_version(0, 1, 0, 0)
    }

    /// The metadata that every instance is created with.
    pub fn new() -> (info: ApplicationInfo)
        ensures
            info.standard(),
            info.application_version == 0x1000,
            info.engine_version == 0x1000,
            info.api_version == 0x40_0000,
    {
        assert(packed_version(0, 0, 1, 0) == 0x1000) by (bit_vector);
        assert(packed_version(0, 1, 0, 0) == 0x40_0000) by (bit_vector);
        ApplicationInfo {
            application_name: APPLICATION_NAME.to_owned(),
            application_version: ash::vk::make_api_version(0, 0, 1, 0),
            engine_name: ENGINE_NAME.to_owned(),
            engine_version: ash::vk::make_api_version(0, 0, 1, 0),
            api_version: ash::vk::make_api_version(0, 1, 0, 0),
        }
    }
}

/// What an instance is created with.
#[derive(Debug, Clone)]
pub struct InstanceCreateInfo {
    pub application_info: ApplicationInfo,
    pub enabled_extensions: Vec<String>,
    pub enabled_extension_count: u32,
}

impl InstanceCreateInfo {
    /// The standard metadata, and exactly the extensions that the
    /// configuration requires.
    pub open spec fn requests(&self, debug: bool) -> bool {
        &&& self.application_info.standard()
        &&& texts(self.enabled_extensions@) == instance_extension_names(debug)
        &&& self.enabled_extension_count == self.enabled_extensions@.len()
    }

    /// Negotiates the extensions of an instance and, where the runtime offers
    /// all that the configuration requires, says what to create it with.
    pub fn new(debug: bool, available: &Vec<ExtensionProperties>) -> (outcome: Result<
        InstanceCreateInfo,
        MissingExtensions,
    >)
        ensures
            outcome is Ok <==> covers(offered(available@), instance_extension_names(debug)),
            outcome matches Ok(info) ==> info.requests(debug),
            outcome matches Err(e) ==> texts(e.names@) == missing(
                instance_extension_names(debug),
                offered(available@),
            ),
    {
        let required = required_instance_extensions(debug);
        match negotiate(&required, available) {
            Ok(()) => {
                assert(texts(required@).len() == required@.len());
                let count: u32 = required.len() as u32;
                Ok(
                    InstanceCreateInfo {
                        application_info: ApplicationInfo::new(),
                        enabled_extensions: required,
                        enabled_extension_count: count,
                    },
                )
            },
            Err(e) => Err(e),
        }
    }
}

/// Why no instance came about.
#[derive(Debug, Clone)]
pub enum InstanceError {
    /// The runtime library could not be loaded.
    LibraryNotLoaded,
    /// The library does not export the bootstrap symbol.
    EntryPointNotFound,
    /// The runtime lacks extensions that the configuration requires.
    ExtensionsNotSupported(MissingExtensions),
    /// The runtime answered a call with a code other than success.
    Native(Error),
    /// An event arrived that does not answer what was asked last.
    UnexpectedEvent,
}

/// What is reported where the runtime library could not be loaded.
pub const LIBRARY_NOT_LOADED: &'static str = "Could not load dynamic library.";

/// What is reported where the bootstrap symbol is missing.
pub const ENTRY_POINT_NOT_FOUND: &'static str =
    "Could not retrieve symbol `vkGetInstanceProcAddr`.";

/// What is reported, before their names, where extensions are missing.
pub const EXTENSIONS_NOT_SUPPORTED: &'static str = "Required extensions are not supported: ";

/// What is reported of an event that answers nothing.
pub const UNEXPECTED_EVENT: &'static str = "Unexpected event.";

/// The message of each failure: it names what is missing, or gives the
/// native result code with its description.
pub open spec fn instance_error_text(error: InstanceError) -> Seq<char> {
    match error {
        InstanceError::LibraryNotLoaded => LIBRARY_NOT_LOADED@,
        InstanceError::EntryPointNotFound => ENTRY_POINT_NOT_FOUND@,
        InstanceError::ExtensionsNotSupported(e) => EXTENSIONS_NOT_SUPPORTED@ + joined(
            texts(e.names@),
        ),
        InstanceError::Native(e) => message_text(result_description(e.code), e.code),
        InstanceError::UnexpectedEvent => UNEXPECTED_EVENT@,
    }
}

impl InstanceError {
    /// The message of this failure.
    pub fn message(&self) -> (text: String)
        ensures
            text@ == instance_error_text(*self),
    {
        match self {
            InstanceError::LibraryNotLoaded => LIBRARY_NOT_LOADED.to_owned(),
            InstanceError::EntryPointNotFound => ENTRY_POINT_NOT_FOUND.to_owned(),
            InstanceError::ExtensionsNotSupported(e) => {
                let mut text = EXTENSIONS_NOT_SUPPORTED.to_owned();
                let names = e.list();
                text.append(names.as_str());
                text
            },
            InstanceError::Native(e) => e.message(),
            InstanceError::UnexpectedEvent => UNEXPECTED_EVENT.to_owned(),
        }
    }
}

/// An instance: the native handle together with the library that its entry
/// points come from. The library is released only after the handle is
/// destroyed.
#[derive(Debug, Clone, Copy, PartialEq, Eq, Structural)]
pub struct Instance {
    pub library: DynamicLibrary,
    pub handle: u64,
}

impl Instance {
    /// The instance that a creation call gave: there is one exactly where the
    /// call reported success; otherwise the error carries the code.
    pub fn new(library: DynamicLibrary, code: i32, handle: u64) -> (outcome: Result<Instance, Error>)
        ensures
            code == SUCCESS ==> outcome == Ok::<Instance, Error>(Instance { library, handle }),
            code != SUCCESS ==> outcome == Err::<Instance, Error>(Error { code }),
    {
        check(code, Instance { library, handle })
    }
}

/// How far the creation of an instance has come.
#[derive(Debug, Clone, Copy)]
pub enum InstanceState {
    /// Nothing has been asked yet.
    Start,
    /// The loader has been asked for the runtime library.
    LoadingLibrary,
    /// The library has been asked for the bootstrap symbol.
    ResolvingEntryPoint { library: DynamicLibrary },
    /// The runtime has been asked which extensions it offers.
    EnumeratingExtensions { library: DynamicLibrary, entry_point: SymbolAddress },
    /// The runtime has been asked to create the instance.
    CreatingInstance { library: DynamicLibrary },
    /// The creation has ended, in an instance or in an error.
    Finished,
}

/// What the outside answered.
#[derive(Debug, Clone)]
pub enum InstanceEvent {
    /// The creation is to begin.
    Started,
    /// The loader returned this module handle; null where it loaded nothing.
    LibraryLoaded { module: isize },
    /// The resolver returned this address; null where the symbol is unknown.
    EntryPointResolved { address: usize },
    /// The enumeration returned this code and these extensions.
    ExtensionsEnumerated { code: i32, available: Vec<ExtensionProperties> },
    /// The creation call returned this code and this handle.
    InstanceCreated { code: i32, handle: u64 },
}

/// What the outside is to do next, or how the creation ended.
#[derive(Debug, Clone)]
pub enum InstanceAction {
    /// Load the library at this path.
    LoadLibrary { path: String },
    /// Resolve the symbol of this name from the library.
    ResolveEntryPoint { library: DynamicLibrary, name: String },
    /// Ask the runtime, through the bootstrap symbol, for its extensions.
    EnumerateExtensions { entry_point: SymbolAddress },
    /// Create the instance with these parameters.
    CreateInstance { entry_point: SymbolAddress, info: InstanceCreateInfo },
    /// The instance stands.
    Done(Instance),
    /// The creation failed; nothing more is to be done.
    Fail(InstanceError),
}

/// The step that `event` causes in `state`: each answer is judged, and either
/// ends the creation in an error or leads to the next request. Nothing is
/// created unless the library is loaded, the bootstrap symbol is resolved,
/// the enumeration succeeded and every required extension is offered.
pub open spec fn instance_transition(
    debug: bool,
    state: InstanceState,
    event: InstanceEvent,
    next: InstanceState,
    action: InstanceAction,
) -> bool {
    match (state, event) {
        (InstanceState::Start, InstanceEvent::Started) => {
            &&& next == InstanceState::LoadingLibrary
            &&& action matches InstanceAction::LoadLibrary { path }
            &&& path@ == LIBRARY_PATH@
        },
        (InstanceState::LoadingLibrary, InstanceEvent::LibraryLoaded { module }) => {
            if module == 0 {
                &&& next == InstanceState::Finished
                &&& action == InstanceAction::Fail(InstanceError::LibraryNotLoaded)
            } else {
                &&& next matches InstanceState::ResolvingEntryPoint { library }
                &&& library.handle() == module
                &&& action matches InstanceAction::ResolveEntryPoint { library: from, name }
                &&& from == library
                &&& name@ == ENTRY_POINT@
            }
        },
        (
            InstanceState::ResolvingEntryPoint { library },
            InstanceEvent::EntryPointResolved { address },
        ) => {
            if address == 0 {
                &&& next == InstanceState::Finished
                &&& action == InstanceAction::Fail(InstanceError::EntryPointNotFound)
            } else {
                &&& next matches InstanceState::EnumeratingExtensions { library: kept, entry_point }
                &&& kept == library
                &&& entry_point.value() == address
                &&& action == (InstanceAction::EnumerateExtensions { entry_point })
            }
        },
        (
            InstanceState::EnumeratingExtensions { library, entry_point },
            InstanceEvent::ExtensionsEnumerated { code, available },
        ) => {
            if code != SUCCESS {
                &&& next == InstanceState::Finished
                &&& action == InstanceAction::Fail(InstanceError::Native(Error { code }))
            } else if covers(offered(available@), instance_extension_names(debug)) {
                &&& next == (InstanceState::CreatingInstance { library })
                &&& action matches InstanceAction::CreateInstance { entry_point: through, info }
                &&& through == entry_point
                &&& info.requests(debug)
            } else {
                &&& next == InstanceState::Finished
                &&& action matches InstanceAction::Fail(InstanceError::ExtensionsNotSupported(e))
                &&& texts(e.names@) == missing(
                    instance_extension_names(debug),
                    offered(available@),
                )
            }
        },
        (InstanceState::CreatingInstance { library }, InstanceEvent::InstanceCreated { code, handle }) => {
            &&& next == InstanceState::Finished
            &&& if code == SUCCESS {
                action == InstanceAction::Done(Instance { library, handle })
            } else {
                action == InstanceAction::Fail(InstanceError::Native(Error { code }))
            }
        },
        _ => {
            &&& next == InstanceState::Finished
            &&& action == InstanceAction::Fail(InstanceError::UnexpectedEvent)
        },
    }
}

/// Takes one step of the creation of an instance: judges what the outside
/// answered and says what it is to do next.
pub fn instance_step(debug: bool, state: InstanceState, event: InstanceEvent) -> (step: (
    InstanceState,
    InstanceAction,
))
    ensures
        instance_transition(debug, state, event, step.0, step.1),
{
    match (state, event) {
        (InstanceState::Start, InstanceEvent::Started) => (
            InstanceState::LoadingLibrary,
            InstanceAction::LoadLibrary { path: LIBRARY_PATH.to_owned() },
        ),
        (InstanceState::LoadingLibrary, InstanceEvent::LibraryLoaded { module }) => {
            match DynamicLibrary::new(module) {
                Some(library) => (
                    InstanceState::ResolvingEntryPoint { library },
                    InstanceAction::ResolveEntryPoint { library, name: ENTRY_POINT.to_owned() },
                ),
                None => (
                    InstanceState::Finished,
                    InstanceAction::Fail(InstanceError::LibraryNotLoaded),
                ),
            }
        },
        (
            InstanceState::ResolvingEntryPoint { library },
            InstanceEvent::EntryPointResolved { address },
        ) => {
            match library.get(address) {
                Some(entry_point) => (
                    InstanceState::EnumeratingExtensions { library, entry_point },
                    InstanceAction::EnumerateExtensions { entry_point },
                ),
                None => (
                    InstanceState::Finished,
                    InstanceAction::Fail(InstanceError::EntryPointNotFound),
                ),
            }
        },
        (
            InstanceState::EnumeratingExtensions { library, entry_point },
            InstanceEvent::ExtensionsEnumerated { code, available },
        ) => {
            if code != SUCCESS {
                (
                    InstanceState::Finished,
                    InstanceAction::Fail(InstanceError::Native(Error::new(code))),
                )
            } else {
                match InstanceCreateInfo::new(debug, &available) {
                    Ok(info) => (
                        InstanceState::CreatingInstance { library },
                        InstanceAction::CreateInstance { entry_point, info },
                    ),
                    Err(e) => (
                        InstanceState::Finished,
                        InstanceAction::Fail(InstanceError::ExtensionsNotSupported(e)),
                    ),
                }
            }
        },
        (InstanceState::CreatingInstance { library }, InstanceEvent::InstanceCreated { code, handle }) => {
            match Instance::new(library, code, handle) {
                Ok(instance) => (InstanceState::Finished, InstanceAction::Done(instance)),
                Err(e) => (InstanceState::Finished, InstanceAction::Fail(InstanceError::Native(e))),
            }
        },
        _ => (InstanceState::Finished, InstanceAction::Fail(InstanceError::UnexpectedEvent)),
    }
}

} // verus!
