//! The run's decisions: the credential gate and the fixed-size batching.
//!
//! The binary around the library reads the environment, the command line
//! and the image files, and performs the network calls; the decisions of
//! the run — whether it may start at all, and how the inputs are cut into
//! batches — are made here, where they can be stated and checked.

use vstd::prelude::*;

verus! {

/// The number of images sent per request.
pub const BATCH_SIZE: usize = 8;

/// Why the run cannot start.
#[derive(Clone, Copy, Debug, PartialEq, Eq, Structural)]
pub enum CredentialError {
    /// The credential variable is not set at all.
    Unset,
    /// The credential variable is set to the empty string.
    Empty,
}

/// The credential gate: the run may start only with a non-empty credential.
/// The caller consults this before reading any file or opening any
/// connection.
pub fn validate_credential(token: Option<String>) -> (r: Result<String, CredentialError>)
    ensures
        token is None ==> r == Err::<String, CredentialError>(CredentialError::Unset),
        token is Some && token->0@.len() == 0 ==> r == Err::<String, CredentialError>(
            CredentialError::Empty,
        ),
        token is Some && token->0@.len() > 0 ==> r == Ok::<String, CredentialError>(token->0),
{
    match token {
        None => Err(CredentialError::Unset),
        Some(t) => {
            if t.as_str().is_empty() {
                Err(CredentialError::Empty)
            } else {
                Ok(t)
            }
        },
    }
}

/// Where chunk `i` of a sequence of length `n` ends: eight past its start,
/// or at the sequence's end for the final partial chunk.
pub open spec fn chunk_end(n: int, i: int) -> int {
    if 8 * i + 8 <= n {
        8 * i + 8
    } else {
        n
    }
}

/// Cuts the inputs into consecutive batches of at most eight, in order:
/// ceil(n / 8) batches, every one full except possibly the last, whose size
/// is n mod 8 (or eight when n is a multiple of eight).
pub fn chunk8<T>(xs: Vec<T>) -> (r: Vec<Vec<T>>)
    ensures
        r@.len() == (xs@.len() + 7) / 8,
        forall|i: int|
            0 <= i < r@.len() ==> (#[trigger] r@[i])@ == xs@.subrange(
                8 * i,
                chunk_end(xs@.len() as int, i),
            ),
        forall|i: int| 0 <= i < r@.len() - 1 ==> (#[trigger] r@[i])@.len() == 8,
        r@.len() > 0 ==> r@[r@.len() - 1]@.len() == (
        if xs@.len() % 8 == 0 {
            8int
        } else {
            xs@.len() as int % 8
        }),
{
    let ghost n: int = xs@.len() as int;
    let ghost whole = xs@;
    let mut rest = xs;
    let mut r: Vec<Vec<T>> = Vec::new();
    proof {
        assert(rest@ =~= whole.skip(0));
    }
    while rest.len() > 0
        invariant
            n == whole.len(),
            rest@ == whole.skip(n - rest@.len()),
            r@.len() == ((n - rest@.len()) + 7) / 8,
            (n - rest@.len()) % 8 == 0 || rest@.len() == 0,
            forall|i: int|
                0 <= i < r@.len() ==> (#[trigger] r@[i])@ == whole.subrange(8 * i, chunk_end(n, i)),
        decreases rest@.len(),
    {
        let ghost c: int = n - rest@.len();
        proof {
            assert(c == 8 * r@.len()) by {
                assert(c % 8 == 0);
                assert(r@.len() == (c + 7) / 8);
            };
        }
        let t: usize = if rest.len() < BATCH_SIZE {
            rest.len()
        } else {
            BATCH_SIZE
        };
        let mut cur: Vec<T> = Vec::new();
        let mut j: usize = 0;
        proof {
            assert(cur@ =~= whole.subrange(c, c + 0));
        }
        while j < t
            invariant
                j <= t,
                n == whole.len(),
                t <= rest@.len() + j,
                0 <= c,
                rest@ == whole.skip(c + j),
                c + j <= n,
                cur@ == whole.subrange(c, c + j),
            decreases t - j,
        {
            let x = rest.remove(0);
            proof {
                assert(whole.skip(c + j).remove(0) =~= whole.skip(c + j + 1));
                assert(whole.skip(c + j)[0] == whole[c + j]);
            }
            cur.push(x);
            proof {
                assert(cur@ =~= whole.subrange(c, c + j + 1));
            }
            j += 1;
        }
        let ghost rlen_old: int = r@.len() as int;
        r.push(cur);
        proof {
            assert(8 * rlen_old == c);
            assert(cur@ == whole.subrange(8 * rlen_old, chunk_end(n, rlen_old)));
            assert(r@.len() == ((n - rest@.len()) + 7) / 8) by {
                assert(n - rest@.len() == c + t);
                assert(c % 8 == 0);
                assert(1 <= t <= 8);
                assert((c + t + 7) / 8 == c / 8 + 1) by (nonlinear_arith)
                    requires
                        c % 8 == 0,
                        1 <= t <= 8,
                        c >= 0,
                ;
                assert(rlen_old == (c + 7) / 8);
                assert((c + 7) / 8 == c / 8) by (nonlinear_arith)
                    requires
                        c % 8 == 0,
                        c >= 0,
                ;
            };
            assert((n - rest@.len()) % 8 == 0 || rest@.len() == 0) by {
                if t == 8 {
                    assert((c + 8) % 8 == 0) by (nonlinear_arith)
                        requires
                            c % 8 == 0,
                            c >= 0,
                    ;
                } else {
                    assert(rest@.len() == 0);
                }
            };
        }
    }
    proof {
        assert(r@.len() == (n + 7) / 8);
        assert forall|i: int| 0 <= i < r@.len() - 1 implies (#[trigger] r@[i])@.len() == 8 by {
            assert(r@[i]@ == whole.subrange(8 * i, chunk_end(n, i)));
            assert(8 * i + 8 <= n) by (nonlinear_arith)
                requires
                    0 <= i < (n + 7) / 8 - 1,
                    n >= 0,
            ;
        };
        if r@.len() > 0 {
            let last: int = r@.len() - 1;
            assert(r@[last]@ == whole.subrange(8 * last, chunk_end(n, last)));
            assert(chunk_end(n, last) - 8 * last == (if n % 8 == 0 {
                8int
            } else {
                n % 8
            })) by (nonlinear_arith)
                requires
                    last == (n + 7) / 8 - 1,
                    n > 0,
            ;
        }
    }
    r
}

} // verus!
