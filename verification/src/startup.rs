use vstd::prelude::*;

verus! {

/// The address under which the application is reached from outside, such as
/// `https://news.example.com`. Confirmation links start with it.
#[derive(Debug)]
pub struct ApplicationBaseUrl(pub String);

impl Clone for ApplicationBaseUrl {
    fn clone(&self) -> (copy: Self)
        ensures
            copy == *self,
    {
        ApplicationBaseUrl(self.0.clone())
    }
}

} // verus!
