//! Local tool runtime: the registry of tool names that routes model tool calls, the errors of
//! registration and dispatch, and the normalized definition a tool is offered as.
//!
//! Names are kept in the order of their UTF-8 bytes (the order of `String`), each at most once;
//! the tools themselves are held next to the registry, position for position.
use vstd::prelude::*;

use crate::types::shared::{FunctionDefinition, FunctionDefinitionView, ToolDefinition, ToolDefinitionView, ToolType};

verus! {

#[verifier::external_type_specification]
#[verifier::external_body]
pub struct ExAnyhowError(anyhow::Error);

/// Errors raised while registering tools.
#[derive(Debug)]
pub enum ToolRegistrationError {
    /// A tool with the same name is already registered.
    DuplicateTool { name: String },
}

impl ToolRegistrationError {
    /// A duplicate-name error for `name`.
    pub fn duplicate_tool(name: &str) -> (r: Self)
        ensures
            r matches ToolRegistrationError::DuplicateTool { name: n } && n@ == name@,
    {
        ToolRegistrationError::DuplicateTool { name: name.to_owned() }
    }
}

/// Errors raised while dispatching a tool call.
#[derive(Debug)]
pub enum ToolCallError {
    /// No tool has the requested name; `available` lists the registered names, comma-separated.
    UnknownTool { name: String, available: String },
    /// The tool ran and failed.
    Execution { name: String, source: anyhow::Error },
}

/// The names joined by `", "`.
pub open spec fn comma_joined(names: Seq<Seq<char>>) -> Seq<char>
    decreases names.len(),
{
    if names.len() == 0 {
        Seq::empty()
    } else if names.len() == 1 {
        names[0]
    } else {
        comma_joined(names.drop_last()) + ", "@ + names.last()
    }
}

impl ToolCallError {
    /// An unknown-tool error for `name`, listing `available`.
    pub fn unknown_tool(name: &str, available: &Vec<String>) -> (r: Self)
        ensures
            r matches ToolCallError::UnknownTool { name: n, available: a } && n@ == name@ && a@
                == comma_joined(crate::types::shared::strings_view(available@)),
    {
        let ghost names = crate::types::shared::strings_view(available@);
        let mut joined = String::new();
        let mut i: usize = 0;
        while i < available.len()
            invariant
                i <= available@.len(),
                names == crate::types::shared::strings_view(available@),
                joined@ == comma_joined(names.take(i as int)),
            decreases available@.len() - i,
        {
            if i > 0 {
                joined.append(", ");
            }
            joined.append(available[i].as_str());
            proof {
                let t = names.take(i as int + 1);
                assert(t.drop_last() =~= names.take(i as int));
                if i == 0 {
                    assert(joined@ =~= t[0]);
                }
            }
            i = i + 1;
        }
        proof {
            assert(names.take(i as int) =~= names);
        }
        ToolCallError::UnknownTool { name: name.to_owned(), available: joined }
    }

    /// An execution error of tool `name`, keeping the tool's own error as the source.
    pub fn execution(name: &str, source: anyhow::Error) -> (r: Self)
        ensures
            r matches ToolCallError::Execution { name: n, .. } && n@ == name@,
    {
        ToolCallError::Execution { name: name.to_owned(), source }
    }
}

/// The normalized definition a tool is offered as: a function tool with its name, its
/// description and its JSON-Schema parameters (JSON text), not strict.
pub fn function_tool(name: &str, description: &str, parameters_schema: String) -> (r: ToolDefinition)
    ensures
        r@ == (ToolDefinitionView {
            kind: ToolType::Function,
            function: FunctionDefinitionView {
                name: name@,
                description: Some(description@),
                parameters: Some(parameters_schema@),
                strict: None,
            },
        }),
{
    ToolDefinition {
        kind: ToolType::Function,
        function: FunctionDefinition {
            name: name.to_owned(),
            description: Some(description.to_owned()),
            parameters: Some(parameters_schema),
            strict: None,
        },
    }
}

/// Lexicographic order of byte strings: the order of `String` and `str`.
pub open spec fn bytes_less(a: Seq<u8>, b: Seq<u8>) -> bool
    decreases a.len(),
{
    if b.len() == 0 {
        false
    } else if a.len() == 0 {
        true
    } else if a[0] != b[0] {
        a[0] < b[0]
    } else {
        bytes_less(a.drop_first(), b.drop_first())
    }
}

/// The UTF-8 bytes of a name, by which names are ordered.
pub open spec fn name_key(name: Seq<char>) -> Seq<u8> {
    vstd::utf8::encode_utf8(name)
}

/// No byte string precedes itself.
proof fn lemma_less_irreflexive(a: Seq<u8>)
    ensures
        !bytes_less(a, a),
    decreases a.len(),
{
    if a.len() > 0 {
        lemma_less_irreflexive(a.drop_first());
    }
}

/// The order is transitive.
proof fn lemma_less_transitive(a: Seq<u8>, b: Seq<u8>, c: Seq<u8>)
    requires
        bytes_less(a, b),
        bytes_less(b, c),
    ensures
        bytes_less(a, c),
    decreases a.len(),
{
    if a.len() > 0 && a[0] == b[0] && b[0] == c[0] {
        lemma_less_transitive(a.drop_first(), b.drop_first(), c.drop_first());
    }
}

/// Of two distinct byte strings, one precedes the other, and not both.
proof fn lemma_less_total(a: Seq<u8>, b: Seq<u8>)
    ensures
        a != b ==> (bytes_less(a, b) || bytes_less(b, a)),
        !(bytes_less(a, b) && bytes_less(b, a)),
    decreases a.len(),
{
    if a.len() > 0 && b.len() > 0 && a[0] == b[0] {
        lemma_less_total(a.drop_first(), b.drop_first());
        if a.drop_first() == b.drop_first() {
            assert(a =~= seq![a[0]] + a.drop_first());
            assert(b =~= seq![b[0]] + b.drop_first());
        }
    } else if a.len() == 0 && b.len() == 0 {
        assert(a =~= b);
    }
}

/// Byte strings that agree on their first `i` bytes compare as their remainders do.
proof fn lemma_less_after_prefix(a: Seq<u8>, b: Seq<u8>, i: int)
    requires
        0 <= i <= a.len(),
        i <= b.len(),
        a.take(i) =~= b.take(i),
    ensures
        bytes_less(a, b) == bytes_less(a.skip(i), b.skip(i)),
    decreases i,
{
    if i == 0 {
        assert(a.skip(0) =~= a);
        assert(b.skip(0) =~= b);
    } else {
        assert(a[0] == a.take(i)[0]);
        assert(b[0] == b.take(i)[0]);
        assert(a.drop_first().take(i - 1) =~= b.drop_first().take(i - 1)) by {
            assert forall|j: int| 0 <= j < i - 1 implies a.drop_first()[j] == b.drop_first()[j] by {
                assert(a.take(i)[j + 1] == b.take(i)[j + 1]);
            }
        }
        lemma_less_after_prefix(a.drop_first(), b.drop_first(), i - 1);
        assert(a.drop_first().skip(i - 1) =~= a.skip(i));
        assert(b.drop_first().skip(i - 1) =~= b.skip(i));
    }
}

/// Three-way outcome of a byte-string comparison.
pub enum ByteOrder {
    Less,
    Equal,
    Greater,
}

/// Compares two byte strings lexicographically.
pub fn compare_bytes(a: &[u8], b: &[u8]) -> (r: ByteOrder)
    ensures
        r is Less <==> bytes_less(a@, b@),
        r is Equal <==> a@ == b@,
        r is Greater <==> bytes_less(b@, a@),
{
    let mut i: usize = 0;
    while i < a.len() && i < b.len() && a[i] == b[i]
        invariant
            i <= a@.len(),
            i <= b@.len(),
            a@.take(i as int) =~= b@.take(i as int),
        decreases a@.len() - i,
    {
        proof {
            assert(a@.take(i as int + 1) =~= a@.take(i as int).push(a@[i as int]));
            assert(b@.take(i as int + 1) =~= b@.take(i as int).push(b@[i as int]));
        }
        i = i + 1;
    }
    proof {
        lemma_less_after_prefix(a@, b@, i as int);
        lemma_less_after_prefix(b@, a@, i as int);
        lemma_less_total(a@, b@);
        lemma_less_irreflexive(a@);
    }
    if i < a.len() && i < b.len() {
        proof {
            assert(a@.skip(i as int)[0] == a@[i as int]);
            assert(b@.skip(i as int)[0] == b@[i as int]);
            assert(a@ != b@) by {
                assert(a@[i as int] != b@[i as int]);
            }
        }
        if a[i] < b[i] {
            ByteOrder::Less
        } else {
            ByteOrder::Greater
        }
    } else if i < b.len() {
        proof {
            assert(a@.len() != b@.len());
        }
        ByteOrder::Less
    } else if i < a.len() {
        proof {
            assert(a@.len() != b@.len());
        }
        ByteOrder::Greater
    } else {
        proof {
            assert(a@ =~= a@.take(i as int));
            assert(b@ =~= b@.take(i as int));
        }
        ByteOrder::Equal
    }
}

/// The registry of tool names: each name at most once, in the order of their UTF-8 bytes.
pub struct ToolIndex {
    names: Vec<String>,
}

impl View for ToolIndex {
    type V = Seq<Seq<char>>;

    closed spec fn view(&self) -> Seq<Seq<char>> {
        crate::types::shared::strings_view(self.names@)
    }
}

/// Names strictly increasing in the order of their UTF-8 bytes (so none occurs twice).
pub open spec fn names_ordered(s: Seq<Seq<char>>) -> bool {
    forall|i: int, j: int| 0 <= i < j < s.len() ==> bytes_less(#[trigger] name_key(s[i]), #[trigger] name_key(s[j]))
}

impl Default for ToolIndex {
    /// An empty registry.
    fn default() -> (r: Self)
        ensures
            r@ == Seq::<Seq<char>>::empty(),
    {
        ToolIndex::new()
    }
}

impl ToolIndex {
    /// The registry is ordered.
    #[verifier::type_invariant]
    spec fn wf(&self) -> bool {
        names_ordered(crate::types::shared::strings_view(self.names@))
    }

    /// An empty registry.
    pub fn new() -> (r: Self)
        ensures
            r@ == Seq::<Seq<char>>::empty(),
    {
        let r = ToolIndex { names: Vec::new() };
        assert(r@ =~= Seq::<Seq<char>>::empty());
        r
    }

    /// The number of registered names.
    pub fn len(&self) -> (r: usize)
        ensures
            r == self@.len(),
    {
        self.names.len()
    }

    /// Whether no name is registered.
    pub fn is_empty(&self) -> (r: bool)
        ensures
            r <==> self@.len() == 0,
    {
        self.names.len() == 0
    }

    /// The registered names, in order; they are strictly increasing in the order of their
    /// UTF-8 bytes.
    pub fn names(&self) -> (r: &Vec<String>)
        ensures
            crate::types::shared::strings_view(r@) == self@,
            names_ordered(self@),
    {
        proof {
            use_type_invariant(self);
        }
        &self.names
    }

    /// The position of `name`, if registered.
    pub fn position(&self, name: &str) -> (r: Option<usize>)
        ensures
            r matches Some(i) ==> i < self@.len() && self@[i as int] == name@,
            r is None ==> !self@.contains(name@),
    {
        let key = name.as_bytes();
        let mut i: usize = 0;
        while i < self.names.len()
            invariant
                i <= self.names@.len(),
                key@ == name_key(name@),
                forall|j: int| 0 <= j < i ==> #[trigger] self@[j] != name@,
            decreases self.names@.len() - i,
        {
            let other = self.names[i].as_str().as_bytes();
            proof {
                assert(self@[i as int] == self.names@[i as int]@);
            }
            if let ByteOrder::Equal = compare_bytes(key, other) {
                proof {
                    vstd::utf8::encode_utf8_decode_utf8(name@);
                    vstd::utf8::encode_utf8_decode_utf8(self@[i as int]);
                }
                return Some(i);
            }
            i = i + 1;
        }
        None
    }

    /// Registers `name` at its place in the order; a name already registered is refused and
    /// the registry is left unchanged. Returns the position of the new name.
    pub fn insert(&mut self, name: &str) -> (r: Result<usize, ToolRegistrationError>)
        ensures
            names_ordered(final(self)@),
            r matches Ok(i) ==> !old(self)@.contains(name@) && i <= old(self)@.len() && final(self)@
                == old(self)@.insert(i as int, name@),
            r matches Err(e) ==> old(self)@.contains(name@) && final(self)@ == old(self)@ && (e matches ToolRegistrationError::DuplicateTool {
                name: n,
            } && n@ == name@),
    {
        proof {
            use_type_invariant(&*self);
        }
        let key = name.as_bytes();
        let ghost s = self@;
        let mut i: usize = 0;
        let mut found = false;
        while !found && i < self.names.len()
            invariant
                i <= self.names@.len(),
                s == self@,
                names_ordered(s),
                key@ == name_key(name@),
                forall|j: int| 0 <= j < i ==> bytes_less(#[trigger] name_key(s[j]), name_key(name@)),
                found ==> i < s.len() && bytes_less(name_key(name@), name_key(s[i as int])),
            decreases self.names@.len() - i + (if found { 0int } else { 1int }),
        {
            let other = self.names[i].as_str().as_bytes();
            proof {
                assert(s[i as int] == self.names@[i as int]@);
            }
            match compare_bytes(key, other) {
                ByteOrder::Equal => {
                    proof {
                        vstd::utf8::encode_utf8_decode_utf8(name@);
                        vstd::utf8::encode_utf8_decode_utf8(s[i as int]);
                        assert(s[i as int] == name@);
                    }
                    return Err(ToolRegistrationError::duplicate_tool(name));
                },
                ByteOrder::Less => {
                    found = true;
                },
                ByteOrder::Greater => {
                    i = i + 1;
                },
            }
        }
        // `name` precedes every name from position `i` on.
        proof {
            assert forall|j: int| i <= j < s.len() implies bytes_less(name_key(name@), #[trigger] name_key(s[j])) by {
                if j > i {
                    lemma_less_transitive(name_key(name@), name_key(s[i as int]), name_key(s[j]));
                }
            }
            assert(!s.contains(name@)) by {
                if s.contains(name@) {
                    let k = choose|k: int| 0 <= k < s.len() && s[k] == name@;
                    lemma_less_irreflexive(name_key(name@));
                }
            }
        }
        let mut names = crate::types::shared::clone_strings(&self.names);
        names.insert(i, name.to_owned());
        proof {
            assert(crate::types::shared::strings_view(names@) =~= s.insert(i as int, name@));
            let t = crate::types::shared::strings_view(names@);
            assert forall|a: int, b: int| 0 <= a < b < t.len() implies bytes_less(
                #[trigger] name_key(t[a]),
                #[trigger] name_key(t[b]),
            ) by {
                if b < i {
                } else if b == i {
                } else if a < i {
                    lemma_less_transitive(name_key(t[a]), name_key(name@), name_key(t[b]));
                } else if a == i {
                } else {
                    assert(t[a] == s[a - 1] && t[b] == s[b - 1]);
                }
            }
        }
        self.names = names;
        Ok(i)
    }
}

} // verus!
