//! Handlers by exact task type and version.

use vstd::prelude::*;
use vstd::string::StringExecFns;

use crate::model::TaskOutput;
use crate::model::TaskRunError;
use crate::text::join3;
use crate::text::same_text;
use crate::text::IntoText;

verus! {

/// Stable task family and exact handler version key.
///
/// Both components participate in exact matching; changing either creates a
/// distinct handler registration.
#[derive(Debug)]
pub struct TaskHandlerDescriptor {
    /// Stable business task family.
    pub task_type: String,
    /// Exact payload interpretation version.
    pub version: String,
}

impl View for TaskHandlerDescriptor {
    type V = (Seq<char>, Seq<char>);

    open spec fn view(&self) -> (Seq<char>, Seq<char>) {
        (self.task_type@, self.version@)
    }
}

impl Clone for TaskHandlerDescriptor {
    fn clone(&self) -> (res: Self)
        ensures
            res@ == self@,
    {
        TaskHandlerDescriptor { task_type: self.task_type.clone(), version: self.version.clone() }
    }
}

/// Explicit outcome of one handler execution attempt.
///
/// Cancellation is acknowledged only after the handler has stopped its work.
#[derive(Debug)]
pub enum TaskRunOutcome {
    /// Execution completed successfully with a small persisted summary.
    Succeeded(TaskOutput),
    /// The handler acknowledged cancellation and stopped work.
    Cancelled,
}

/// Handler result: an explicit outcome or classified failure.
pub type TaskRunResult = Result<TaskRunOutcome, TaskRunError>;

/// Describes a handler registry conflict.
#[derive(Debug)]
pub enum RegistryError {
    /// Another provider already registered the same task type and version.
    Duplicate {
        /// Task family claimed by both handlers.
        task_type: String,
        /// Payload version claimed by both handlers.
        version: String,
        /// Source that registered the handler first.
        first_source: String,
        /// Source that attempted the conflicting registration.
        second_source: String,
    },
    /// A handler declared an empty task type or version.
    InvalidDescriptor,
}

/// Content of a [`RegistryError`].
#[verifier::ext_equal]
pub enum RegistryErrorModel {
    Duplicate {
        task_type: Seq<char>,
        version: Seq<char>,
        first_source: Seq<char>,
        second_source: Seq<char>,
    },
    InvalidDescriptor,
}

impl View for RegistryError {
    type V = RegistryErrorModel;

    open spec fn view(&self) -> RegistryErrorModel {
        match self {
            RegistryError::Duplicate { task_type, version, first_source, second_source } => {
                RegistryErrorModel::Duplicate {
                    task_type: task_type@,
                    version: version@,
                    first_source: first_source@,
                    second_source: second_source@,
                }
            },
            RegistryError::InvalidDescriptor => RegistryErrorModel::InvalidDescriptor,
        }
    }
}

impl RegistryErrorModel {
    /// The text that describes this error.
    pub open spec fn message(self) -> Seq<char> {
        match self {
            RegistryErrorModel::Duplicate { task_type, version, first_source, second_source } => {
                "duplicate handler for `"@ + task_type + "` version `"@ + version + "` from `"@
                    + first_source + "` and `"@ + second_source + "`"@
            },
            RegistryErrorModel::InvalidDescriptor => {
                "handler task type and version must not be empty"@
            },
        }
    }
}

impl RegistryError {
    /// Returns the text that describes this error.
    pub fn message(&self) -> (text: String)
        ensures
            text@ == self@.message(),
    {
        match self {
            RegistryError::Duplicate { task_type, version, first_source, second_source } => {
                let mut text = join3("duplicate handler for `", task_type.as_str(), "` version `");
                text.append(version.as_str());
                text.append("` from `");
                text.append(first_source.as_str());
                text.append("` and `");
                text.append(second_source.as_str());
                text.append("`");
                text
            },
            RegistryError::InvalidDescriptor => {
                "handler task type and version must not be empty".to_owned()
            },
        }
    }
}

#[derive(Debug)]
struct RegisteredHandler<H> {
    key: TaskHandlerDescriptor,
    handler: H,
    source: String,
}

/// Resolves task handlers by their exact task type and version.
///
/// Duplicate descriptors are rejected so resolution always identifies at most
/// one handler.
#[derive(Debug)]
pub struct TaskHandlerRegistry<H> {
    handlers: Vec<RegisteredHandler<H>>,
}

impl<H> View for TaskHandlerRegistry<H> {
    type V = Map<(Seq<char>, Seq<char>), (H, Seq<char>)>;

    closed spec fn view(&self) -> Map<(Seq<char>, Seq<char>), (H, Seq<char>)> {
        Map::new(
            |key: (Seq<char>, Seq<char>)| self.registers(key),
            |key: (Seq<char>, Seq<char>)|
                (
                    self.handlers@[self.position(key)].handler,
                    self.handlers@[self.position(key)].source@,
                ),
        )
    }
}

/// Why a registration is refused, if it is.
pub open spec fn registration_error<H>(
    registered: Map<(Seq<char>, Seq<char>), (H, Seq<char>)>,
    key: (Seq<char>, Seq<char>),
    source: Seq<char>,
) -> Option<RegistryErrorModel> {
    if key.0.len() == 0 || key.1.len() == 0 {
        Some(RegistryErrorModel::InvalidDescriptor)
    } else if registered.contains_key(key) {
        Some(
            RegistryErrorModel::Duplicate {
                task_type: key.0,
                version: key.1,
                first_source: registered[key].1,
                second_source: source,
            },
        )
    } else {
        None
    }
}

impl<H> TaskHandlerRegistry<H> {
    spec fn registers(&self, key: (Seq<char>, Seq<char>)) -> bool {
        exists|i: int| 0 <= i < self.handlers@.len() && #[trigger] self.handlers@[i].key@ == key
    }

    spec fn position(&self, key: (Seq<char>, Seq<char>)) -> int {
        choose|i: int| 0 <= i < self.handlers@.len() && #[trigger] self.handlers@[i].key@ == key
    }

    #[verifier::type_invariant]
    spec fn distinct(self) -> bool {
        forall|i: int, j: int|
            0 <= i < j < self.handlers@.len() ==> (#[trigger] self.handlers@[i]).key@ != (
            #[trigger] self.handlers@[j]).key@
    }

    /// Creates an empty registry.
    pub fn new() -> (registry: Self)
        ensures
            registry@ == Map::<(Seq<char>, Seq<char>), (H, Seq<char>)>::empty(),
    {
        let registry = TaskHandlerRegistry { handlers: Vec::new() };
        proof {
            assert(registry@ =~= Map::<(Seq<char>, Seq<char>), (H, Seq<char>)>::empty());
        }
        registry
    }

    /// Finds the position of an exact key.
    fn find(&self, task_type: &str, version: &str) -> (found: Option<usize>)
        ensures
            match found {
                Some(i) => {
                    &&& i < self.handlers@.len()
                    &&& self.handlers@[i as int].key@ == (task_type@, version@)
                    &&& self@.contains_key((task_type@, version@))
                    &&& self@[(task_type@, version@)] == (
                        self.handlers@[i as int].handler,
                        self.handlers@[i as int].source@,
                    )
                },
                None => !self@.contains_key((task_type@, version@)),
            },
    {
        proof {
            use_type_invariant(self);
        }
        let ghost key = (task_type@, version@);
        let mut i: usize = 0;
        while i < self.handlers.len()
            invariant
                i <= self.handlers@.len(),
                self.distinct(),
                key == (task_type@, version@),
                forall|k: int| 0 <= k < i ==> (#[trigger] self.handlers@[k]).key@ != key,
            decreases self.handlers@.len() - i,
        {
            if same_text(self.handlers[i].key.task_type.as_str(), task_type) && same_text(
                self.handlers[i].key.version.as_str(),
                version,
            ) {
                proof {
                    assert(self.handlers@[i as int].key@ == key);
                    let p = self.position(key);
                    assert(self.handlers@[p].key@ == key);
                    if p < i {
                    } else if i < p {
                        assert(self.handlers@[i as int].key@ != self.handlers@[p].key@);
                    }
                }
                return Some(i);
            }
            i = i + 1;
        }
        None
    }

    /// Registers one handler and rejects duplicate type/version declarations.
    pub fn register(&mut self, descriptor: TaskHandlerDescriptor, handler: H) -> (result: Result<
        (),
        RegistryError,
    >)
        ensures
            register_post(
                old(self)@,
                final(self)@,
                descriptor@,
                handler,
                "direct registration"@,
                result,
            ),
    {
        self.register_with_source(descriptor, handler, "direct registration")
    }

    /// Registers one handler and retains its provider identity for conflict
    /// diagnostics.
    pub fn register_with_source(
        &mut self,
        descriptor: TaskHandlerDescriptor,
        handler: H,
        source: impl IntoText,
    ) -> (result: Result<(), RegistryError>)
        ensures
            register_post(
                old(self)@,
                final(self)@,
                descriptor@,
                handler,
                source.characters(),
                result,
            ),
    {
        proof {
            use_type_invariant(&*self);
        }
        if descriptor.task_type.as_str().is_empty() || descriptor.version.as_str().is_empty() {
            return Err(RegistryError::InvalidDescriptor);
        }
        let ghost origin = source.characters();
        let source = source.into_text();
        match self.find(descriptor.task_type.as_str(), descriptor.version.as_str()) {
            Some(i) => {
                return Err(
                    RegistryError::Duplicate {
                        task_type: descriptor.task_type,
                        version: descriptor.version,
                        first_source: self.handlers[i].source.clone(),
                        second_source: source,
                    },
                );
            },
            None => {},
        }
        let ghost key = descriptor@;
        let ghost before = self@;
        let ghost start = self.handlers@;
        proof {
            assert(!self.registers(key)) by {
                assert(!before.contains_key(key));
            }
        }
        let mut handlers: Vec<RegisteredHandler<H>> = Vec::new();
        std::mem::swap(&mut handlers, &mut self.handlers);
        handlers.push(RegisteredHandler { key: descriptor, handler, source });
        proof {
            assert forall|i: int, j: int| 0 <= i < j < handlers@.len() implies (
            #[trigger] handlers@[i]).key@ != (#[trigger] handlers@[j]).key@ by {
                assert(start[i].key@ != key);
            }
        }
        std::mem::swap(&mut handlers, &mut self.handlers);
        proof {
            let n = start.len() as int;
            assert(self.handlers@[n].key@ == key);
            assert forall|k: (Seq<char>, Seq<char>)|
                self@.contains_key(k) == (before.contains_key(k) || k == key) by {
                if before.contains_key(k) {
                    let i = choose|i: int| 0 <= i < start.len() && #[trigger] start[i].key@ == k;
                    assert(self.handlers@[i].key@ == k);
                }
                if self@.contains_key(k) && k != key {
                    let i = self.position(k);
                    assert(self.handlers@[i].key@ == k);
                    assert(start[i].key@ == k);
                }
            }
            assert forall|k: (Seq<char>, Seq<char>)| self@.contains_key(k) implies self@[k]
                == before.insert(key, (handler, origin))[k] by {
                let p = self.position(k);
                assert(self.handlers@[p].key@ == k);
                if k == key {
                    if p < n {
                        assert(start[p].key@ == key);
                    }
                } else {
                    assert(start[p].key@ == k);
                    let q = old(self).position(k);
                    assert(start[q].key@ == k);
                    if p < q {
                        assert(start[p].key@ != start[q].key@);
                    } else if q < p {
                        assert(start[q].key@ != start[p].key@);
                    }
                }
            }
            assert(self@ =~= before.insert(key, (handler, origin)));
        }
        Ok(())
    }

    /// Finds only an exact type and version match.
    pub fn resolve(&self, task_type: &str, version: &str) -> (handler: Option<&H>)
        ensures
            match handler {
                Some(found) => self@.contains_key((task_type@, version@)) && *found == self@[(
                    task_type@,
                    version@,
                )].0,
                None => !self@.contains_key((task_type@, version@)),
            },
    {
        match self.find(task_type, version) {
            Some(i) => Some(&self.handlers[i].handler),
            None => None,
        }
    }
}

/// What registering a handler does and returns.
pub open spec fn register_post<H>(
    before: Map<(Seq<char>, Seq<char>), (H, Seq<char>)>,
    after: Map<(Seq<char>, Seq<char>), (H, Seq<char>)>,
    key: (Seq<char>, Seq<char>),
    handler: H,
    source: Seq<char>,
    result: Result<(), RegistryError>,
) -> bool {
    match result {
        Ok(_) => registration_error(before, key, source) is None && after == before.insert(
            key,
            (handler, source),
        ),
        Err(e) => registration_error(before, key, source) == Some(e@) && after == before,
    }
}

/// Once a handler is registered its key resolves to it, and every later
/// registration of that key is refused and names the first source.
pub proof fn law_registration_is_exclusive<H>(
    before: Map<(Seq<char>, Seq<char>), (H, Seq<char>)>,
    key: (Seq<char>, Seq<char>),
    handler: H,
    source: Seq<char>,
    other_source: Seq<char>,
)
    requires
        registration_error(before, key, source) is None,
    ensures
        before.insert(key, (handler, source)).contains_key(key),
        before.insert(key, (handler, source))[key].0 == handler,
        registration_error(before.insert(key, (handler, source)), key, other_source) == Some(
            RegistryErrorModel::Duplicate {
                task_type: key.0,
                version: key.1,
                first_source: source,
                second_source: other_source,
            },
        ),
{
}

} // verus!
