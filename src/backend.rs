use vstd::prelude::*;
use vstd::string::*;
use crate::text::{eq_ignore_case, fold_case, str_eq_ignore_case};

verus! {

/// The supported storage backends.
#[derive(Debug, Clone, Copy, PartialEq, Eq, Structural)]
pub enum BackendType {
    S3,
    DigitalOcean,
}

/// The configuration token of each backend.
pub open spec fn backend_token(b: BackendType) -> Seq<char> {
    match b {
        BackendType::S3 => seq!['s', '3'],
        BackendType::DigitalOcean => seq!['d', 'o'],
    }
}

/// The backend that a configuration token names, if any (case ignored, as `fold_case` folds it).
pub open spec fn backend_of(s: Seq<char>) -> Option<BackendType> {
    if eq_ignore_case(s, backend_token(BackendType::S3)) {
        Some(BackendType::S3)
    } else if eq_ignore_case(s, backend_token(BackendType::DigitalOcean)) {
        Some(BackendType::DigitalOcean)
    } else {
        None
    }
}

/// The message that rejects `s` as a backend token.
pub open spec fn invalid_backend_message(s: Seq<char>) -> Seq<char> {
    seq!['\''] + s + "' is not a valid backend"@
}

impl BackendType {
    /// The configuration token of this backend.
    pub fn token(&self) -> (r: &'static str)
        ensures
            r@ == backend_token(*self),
    {
        proof {
            reveal_strlit("s3");
            reveal_strlit("do");
        }
        match self {
            BackendType::S3 => "s3",
            BackendType::DigitalOcean => "do",
        }
    }

    /// The tokens of all backends, in declaration order.
    pub fn valid_tokens() -> (r: Vec<&'static str>)
        ensures
            r@.len() == 2,
            r@[0]@ == backend_token(BackendType::S3),
            r@[1]@ == backend_token(BackendType::DigitalOcean),
    {
        let mut v: Vec<&'static str> = Vec::new();
        v.push(BackendType::S3.token());
        v.push(BackendType::DigitalOcean.token());
        v
    }

    /// Parses a configuration token; case is ignored as `fold_case` folds it.
    pub fn from_str(s: &str) -> (r: Result<BackendType, String>)
        ensures
            backend_of(s@) is Some ==> r == Ok::<BackendType, String>(backend_of(s@).unwrap()),
            backend_of(s@) is None ==> r is Err && r->Err_0@ == invalid_backend_message(s@),
    {
        proof {
            reveal_strlit("s3");
            reveal_strlit("do");
        }
        if str_eq_ignore_case(s, "s3") {
            Ok(BackendType::S3)
        } else if str_eq_ignore_case(s, "do") {
            Ok(BackendType::DigitalOcean)
        } else {
            let mut msg = String::from_str("'");
            msg.append(s);
            msg.append("' is not a valid backend");
            proof {
                reveal_strlit("'");
            }
            Err(msg)
        }
    }
}

/// Parsing accepts exactly the case variants of a backend's token, and
/// each token parses back to its own backend.
pub proof fn lemma_backend_tokens_round_trip(b: BackendType, s: Seq<char>)
    ensures
        backend_of(s) == Some(b) <==> eq_ignore_case(s, backend_token(b)),
        backend_of(s) is None <==> (forall|k: BackendType|
            !eq_ignore_case(s, #[trigger] backend_token(k))),
        backend_of(backend_token(b)) == Some(b),
{
    let s3 = backend_token(BackendType::S3);
    let d = backend_token(BackendType::DigitalOcean);
    assert(fold_case(s3[0]) != fold_case(d[0]));
    if eq_ignore_case(s, s3) && eq_ignore_case(s, d) {
        assert(fold_case(s[0]) == fold_case(s3[0]));
        assert(fold_case(s[0]) == fold_case(d[0]));
    }
    assert(eq_ignore_case(backend_token(b), backend_token(b)));
    if backend_of(s) is None {
        assert forall|k: BackendType| !eq_ignore_case(s, #[trigger] backend_token(k)) by {
            match k {
                BackendType::S3 => {},
                BackendType::DigitalOcean => {},
            }
        }
    }
}

} // verus!
