//! Choosing the method that resolves a DID.

use crate::did::Did;
use crate::did_key::KEY_METHOD_NAME;
use crate::ResolutionError;
use vstd::prelude::*;
use vstd::string::*;

verus! {

/// The registered methods, by name, in the order they are tried.
pub struct DidResolver {
    pub methods: Vec<String>,
}

impl Default for DidResolver {
    /// A resolver with the `did:key` method alone.
    fn default() -> (r: DidResolver)
        ensures
            r.methods@.len() == 1,
            r.methods@[0]@ == seq!['k', 'e', 'y'],
    {
        let mut methods: Vec<String> = Vec::new();
        methods.push(KEY_METHOD_NAME.to_owned());
        proof {
            reveal_strlit("key");
        }
        DidResolver { methods }
    }
}

impl DidResolver {
    /// Resolves which registered method handles `did`: the position of the
    /// first one whose name is the DID's method name; `UnsupportedMethod`
    /// where there is none. The caller runs that method.
    pub fn resolve(&self, did: &Did) -> (r: Result<usize, ResolutionError>)
        ensures
            r matches Ok(i) ==> i < self.methods@.len() && self.methods@[i as int]@
                == did.method_name@ && forall|j: int|
                0 <= j < i ==> (#[trigger] self.methods@[j])@ != did.method_name@,
            r matches Err(e) ==> e is UnsupportedMethod && forall|j: int|
                0 <= j < self.methods@.len() ==> (#[trigger] self.methods@[j])@ != did.method_name@,
            r is Err <==> forall|j: int|
                0 <= j < self.methods@.len() ==> (#[trigger] self.methods@[j])@ != did.method_name@,
            self.methods@.len() == 0 ==> r matches Err(ResolutionError::UnsupportedMethod),
    {
        let n = self.methods.len();
        let mut i: usize = 0;
        while i < n
            invariant
                n == self.methods@.len(),
                i <= n,
                forall|j: int| 0 <= j < i ==> (#[trigger] self.methods@[j])@ != did.method_name@,
            decreases n - i,
        {
            if self.methods[i] == did.method_name.0 {
                return Ok(i);
            }
            i = i + 1;
        }
        Err(ResolutionError::UnsupportedMethod)
    }
}

} // verus!
