use vstd::prelude::*;

verus! {

/// The bundled default album art, from the embedded asset looked up by name.
/// The asset is compiled into the program, so it is always there.
pub fn load_default_album_art(embedded: Option<Vec<u8>>) -> (r: Vec<u8>)
    requires
        embedded is Some,
    ensures
        r@ == embedded.unwrap()@,
{
    embedded.unwrap()
}

} // verus!
