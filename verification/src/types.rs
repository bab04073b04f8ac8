//! An earlier shape of the submitted record, kept alongside the registry:
//! it stores free-form data instead of a content reference and counts votes
//! instead of donations.

use vstd::prelude::*;

verus! {

/// A submitted record in its reduced form: identifier, submitter, title,
/// free-form data, and a vote counter.
pub struct Meme {
    pub id: u64,
    pub creado_por: String,
    pub titulo: String,
    pub datos: String,
    pub votos: u32,
}

impl Meme {
    /// Builds the record for a fresh submission. The identifier and the
    /// submitter identity are supplied by the caller; votes start at zero.
    pub fn new(id: u64, creado_por: String, titulo: String, datos: String) -> (m: Meme)
        ensures
            m.id == id,
            m.creado_por == creado_por,
            m.titulo == titulo,
            m.datos == datos,
            m.votos == 0,
    {
        Meme { id, creado_por, titulo, datos, votos: 0 }
    }
}

impl Default for Meme {
    fn default() -> (m: Meme)
        ensures
            m.id == 0,
            m.creado_por@ == Seq::<char>::empty(),
            m.titulo@ == Seq::<char>::empty(),
            m.datos@ == Seq::<char>::empty(),
            m.votos == 0,
    {
        Meme {
            id: 0,
            creado_por: String::new(),
            titulo: String::new(),
            datos: String::new(),
            votos: 0,
        }
    }
}

} // verus!
