use vstd::prelude::*;

use crate::error::{same_failure, class_of, error_of_class, variant_code, ErrorVariant, JrpcErrorEnum};
use crate::json::{str_equal, JsonValue};
use crate::request::{request_of_json, JrpcRequest};

verus! {

/// A method that can be registered: given a validated request, it produces
/// the pending computation that will answer it.
pub trait JrpcMethodTrait {
    type Pending;

    fn generate_future(&self, request: JrpcRequest) -> Result<Self::Pending, ErrorVariant>;
}

/// Registering a signature twice leaves the second method in place: the
/// table is the same as after the second registration alone, and a lookup
/// finds the second method.
pub proof fn lemma_last_registration_wins<M>(
    table: Map<Seq<char>, M>,
    signature: Seq<char>,
    first: M,
    second: M,
)
    ensures
        table.insert(signature, first).insert(signature, second) == table.insert(signature, second),
        table.insert(signature, first).insert(signature, second).contains_key(signature),
        table.insert(signature, first).insert(signature, second)[signature] == second,
{
    assert(table.insert(signature, first).insert(signature, second) =~= table.insert(
        signature,
        second,
    ));
}

/// A request for a method that is not registered is reported with the
/// code for an unknown method.
pub proof fn lemma_unknown_method_code(e: ErrorVariant)
    requires
        e is MethodSignatureNotFound,
    ensures
        variant_code(e) == -32601,
        class_of(variant_code(e)) == JrpcErrorEnum::MethodNotFound,
        error_of_class(class_of(variant_code(e))).code == -32601,
{
}

/// The table of registered methods, keyed by signature.
pub struct JrpcHandler<M> {
    signatures: Vec<String>,
    methods: Vec<M>,
    table: Ghost<Map<Seq<char>, M>>,
}

impl<M> View for JrpcHandler<M> {
    type V = Map<Seq<char>, M>;

    closed spec fn view(&self) -> Map<Seq<char>, M> {
        self.table@
    }
}

impl<M> JrpcHandler<M> {
    /// The table is well formed: one entry per signature, each holding the
    /// method last registered under it.
    #[verifier::type_invariant]
    closed spec fn wf(&self) -> bool {
        &&& self.signatures@.len() == self.methods@.len()
        &&& forall|i: int|
            0 <= i < self.signatures@.len() ==> #[trigger] self.table@.contains_key(
                self.signatures@[i]@,
            ) && self.table@[self.signatures@[i]@] == self.methods@[i]
        &&& forall|k: Seq<char>| #[trigger]
            self.table@.contains_key(k) ==> exists|i: int|
                0 <= i < self.signatures@.len() && self.signatures@[i]@ == k
        &&& forall|i: int, j: int|
            0 <= i < self.signatures@.len() && 0 <= j < self.signatures@.len() && i != j
                ==> self.signatures@[i]@ != self.signatures@[j]@
    }

    /// An empty table.
    pub fn new() -> (r: Result<Self, ErrorVariant>)
        ensures
            r matches Ok(h) && h@ == Map::<Seq<char>, M>::empty(),
    {
        Ok(JrpcHandler { signatures: Vec::new(), methods: Vec::new(), table: Ghost(Map::empty()) })
    }

    /// Where `signature` stands in the table, if it is there.
    fn position(&self, signature: &str) -> (r: Option<usize>)
        ensures
            match r {
                Some(i) => i < self.signatures@.len() && self.signatures@[i as int]@ == signature@,
                None => !self@.contains_key(signature@),
            },
    {
        proof {
            use_type_invariant(self);
        }
        let mut i: usize = 0;
        while i < self.signatures.len()
            invariant
                self.wf(),
                0 <= i <= self.signatures@.len(),
                forall|j: int| 0 <= j < i ==> self.signatures@[j]@ != signature@,
            decreases self.signatures@.len() - i,
        {
            if str_equal(self.signatures[i].as_str(), signature) {
                return Some(i);
            }
            i = i + 1;
        }
        None
    }

    /// Binds `jrpc_method` to `signature`, replacing any method bound to it
    /// before.
    pub fn register_method(&mut self, signature: String, jrpc_method: M) -> (r: Result<(), ErrorVariant>)
        ensures
            r is Ok,
            final(self)@ == old(self)@.insert(signature@, jrpc_method),
    {
        let found = self.position(signature.as_str());
        let mut current = JrpcHandler {
            signatures: Vec::new(),
            methods: Vec::new(),
            table: Ghost(Map::empty()),
        };
        core::mem::swap(self, &mut current);
        proof {
            use_type_invariant(&current);
        }
        let ghost key = signature@;
        let ghost old_table = current.table@;
        let ghost old_signatures = current.signatures@;
        let JrpcHandler { mut signatures, mut methods, table: _ } = current;
        let ghost new_table = old_table.insert(key, jrpc_method);
        match found {
            Some(i) => {
                methods.set(i, jrpc_method);
                assert forall|k: Seq<char>| #[trigger] new_table.contains_key(k) implies exists|j: int|
                    0 <= j < signatures@.len() && signatures@[j]@ == k by {
                    if k != key {
                        assert(old_table.contains_key(k));
                        let j = choose|j: int|
                            0 <= j < old_signatures.len() && old_signatures[j]@ == k;
                        assert(signatures@[j]@ == k);
                    } else {
                        assert(signatures@[i as int]@ == k);
                    }
                }
            },
            None => {
                let ghost n = signatures@.len() as int;
                signatures.push(signature);
                methods.push(jrpc_method);
                assert forall|k: Seq<char>| #[trigger] new_table.contains_key(k) implies exists|j: int|
                    0 <= j < signatures@.len() && signatures@[j]@ == k by {
                    if k != key {
                        assert(old_table.contains_key(k));
                        let j = choose|j: int| 0 <= j < n && old_signatures[j]@ == k;
                        assert(signatures@[j] == old_signatures[j]);
                    } else {
                        assert(signatures@[n]@ == k);
                    }
                }
                assert forall|i: int| 0 <= i < n implies old_signatures[i]@ != key by {
                    assert(old_table.contains_key(old_signatures[i]@));
                }
            },
        }
        *self = JrpcHandler { signatures, methods, table: Ghost(new_table) };
        Ok(())
    }

    /// The method bound to `signature`.
    pub fn lookup(&self, signature: &str) -> (r: Result<&M, ErrorVariant>)
        ensures
            self@.contains_key(signature@) ==> (r matches Ok(m) && *m == self@[signature@]),
            !self@.contains_key(signature@) ==> (r matches Err(
                ErrorVariant::MethodSignatureNotFound(s),
            ) && s@ == signature@),
    {
        proof {
            use_type_invariant(self);
        }
        match self.position(signature) {
            Some(i) => Ok(&self.methods[i]),
            None => Err(ErrorVariant::MethodSignatureNotFound(signature.to_string())),
        }
    }

    /// Reads the request that `message` holds and finds the method it names.
    pub fn prepare(&self, message: JsonValue) -> (r: Result<(&M, JrpcRequest), ErrorVariant>)
        ensures
            match request_of_json(message) {
                Err(e) => r matches Err(x) && same_failure(x, e),
                Ok(q) => if self@.contains_key(q.method) {
                    r matches Ok((m, req)) && *m == self@[q.method] && req@ == q
                } else {
                    r matches Err(ErrorVariant::MethodSignatureNotFound(s)) && s@ == q.method
                },
            },
    {
        let request = JrpcRequest::parse(message)?;
        let method = self.lookup(request.get_method().as_str())?;
        Ok((method, request))
    }
}

impl<M: JrpcMethodTrait> JrpcHandler<M> {
    /// Reads the request that `message` holds, finds the method it names and
    /// asks that method for the computation that answers it.
    pub fn handle_message(&self, message: JsonValue) -> (r: Result<M::Pending, ErrorVariant>)
        ensures
            match request_of_json(message) {
                Err(e) => r matches Err(x) && same_failure(x, e),
                Ok(q) => !self@.contains_key(q.method) ==> (r matches Err(
                    ErrorVariant::MethodSignatureNotFound(s),
                ) && s@ == q.method),
            },
    {
        let (method, request) = self.prepare(message)?;
        method.generate_future(request)
    }
}

} // verus!
