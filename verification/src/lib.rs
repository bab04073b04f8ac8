//! In-memory registry of user-submitted items ("memes") grouped into named
//! collections ("museums"), with monetary contributions credited to each
//! item's submitter.
//!
//! The registry itself is pure state: the host environment that supplies the
//! caller identity, the identifier sequence and the attached deposit, and the
//! service that actually moves value, all stay outside. Every operation takes
//! those host-supplied values as plain arguments and reports the transfer the
//! caller still has to perform.

use vstd::prelude::*;

pub mod types;

verus! {

/// A submitted record: identifier, submitter, title, content reference,
/// the museum it was filed under, and the accumulated donations.
pub struct Meme {
    pub id: u64,
    pub creado_por: String,
    pub titulo: String,
    pub museo: String,
    pub url: String,
    pub donaciones: u128,
}

impl Meme {
    /// Builds the record for a fresh submission. The identifier and the
    /// submitter identity are supplied by the caller (the host environment
    /// provides them); the donation counter starts at zero.
    pub fn new(id: u64, creado_por: String, titulo: String, url: String, museo: String) -> (m: Meme)
        ensures
            m.id == id,
            m.creado_por == creado_por,
            m.titulo == titulo,
            m.url == url,
            m.museo == museo,
            m.donaciones == 0,
    {
        Meme { id, creado_por, titulo, museo, url, donaciones: 0 }
    }
}

impl Clone for Meme {
    fn clone(&self) -> (m: Meme)
        ensures
            m == *self,
    {
        Meme {
            id: self.id,
            creado_por: self.creado_por.clone(),
            titulo: self.titulo.clone(),
            museo: self.museo.clone(),
            url: self.url.clone(),
            donaciones: self.donaciones,
        }
    }
}

impl Default for Meme {
    fn default() -> (m: Meme)
        ensures
            m.id == 0,
            m.creado_por@ == Seq::<char>::empty(),
            m.titulo@ == Seq::<char>::empty(),
            m.url@ == Seq::<char>::empty(),
            m.museo@ == Seq::<char>::empty(),
            m.donaciones == 0,
    {
        Meme {
            id: 0,
            creado_por: String::new(),
            titulo: String::new(),
            museo: String::new(),
            url: String::new(),
            donaciones: 0,
        }
    }
}

/// An instruction for the payment collaborator: move `monto` to `destino`.
/// The registry only records donations; the caller performs the transfer.
pub struct Transferencia {
    pub destino: String,
    pub monto: u128,
}

/// True when some stored record carries the identifier `id`.
pub open spec fn contiene_id(s: Seq<Meme>, id: u64) -> bool {
    exists|i: int| 0 <= i < s.len() && (#[trigger] s[i]).id == id
}

/// The position of the record carrying `id`; meaningful when `contiene_id` holds.
pub open spec fn indice_del_id(s: Seq<Meme>, id: u64) -> int {
    choose|i: int| 0 <= i < s.len() && (#[trigger] s[i]).id == id
}

/// True when some museum entry carries the name `nombre`.
pub open spec fn contiene_nombre(s: Seq<(String, Vec<u64>)>, nombre: Seq<char>) -> bool {
    exists|i: int| 0 <= i < s.len() && (#[trigger] s[i]).0@ == nombre
}

/// The position of the museum entry named `nombre`; meaningful when
/// `contiene_nombre` holds.
pub open spec fn indice_del_nombre(s: Seq<(String, Vec<u64>)>, nombre: Seq<char>) -> int {
    choose|i: int| 0 <= i < s.len() && (#[trigger] s[i]).0@ == nombre
}

/// The membership of the museum named `nombre`: its identifier sequence, or
/// the empty sequence when no such museum exists. Absence is a normal state,
/// never an error.
pub open spec fn miembros_de(s: Seq<(String, Vec<u64>)>, nombre: Seq<char>) -> Seq<u64> {
    if contiene_nombre(s, nombre) {
        s[indice_del_nombre(s, nombre)].1@
    } else {
        Seq::empty()
    }
}

/// No two stored records share an identifier.
pub open spec fn ids_unicos(s: Seq<Meme>) -> bool {
    forall|i: int, j: int| 0 <= i < j < s.len() ==> s[i].id != s[j].id
}

/// No two museum entries share a name.
pub open spec fn nombres_unicos(s: Seq<(String, Vec<u64>)>) -> bool {
    forall|i: int, j: int| 0 <= i < j < s.len() ==> s[i].0@ != s[j].0@
}

/// The registry: a primary store of records keyed by identifier, and a
/// museum index mapping each museum name to the identifiers it contains.
/// The index stores identifiers only, never record data, so the store stays
/// the single source of truth.
pub struct SimpleMemeMuseum {
    museos: Vec<(String, Vec<u64>)>,
    memes: Vec<Meme>,
}

impl SimpleMemeMuseum {
    /// The stored records, in insertion order.
    pub closed spec fn memes_vista(self) -> Seq<Meme> {
        self.memes@
    }

    /// The museum entries, in order of first submission under each name.
    pub closed spec fn museos_vista(self) -> Seq<(String, Vec<u64>)> {
        self.museos@
    }

    /// True when a record with identifier `id` is stored.
    pub open spec fn tiene_meme(self, id: u64) -> bool {
        contiene_id(self.memes_vista(), id)
    }

    /// The stored record with identifier `id`; meaningful when `tiene_meme` holds.
    pub open spec fn meme_con_id(self, id: u64) -> Meme {
        self.memes_vista()[indice_del_id(self.memes_vista(), id)]
    }

    /// True when a museum named `nombre` exists.
    pub open spec fn tiene_museo(self, nombre: Seq<char>) -> bool {
        contiene_nombre(self.museos_vista(), nombre)
    }

    /// The identifiers filed under `nombre`, empty when the museum is unknown.
    pub open spec fn miembros(self, nombre: Seq<char>) -> Seq<u64> {
        miembros_de(self.museos_vista(), nombre)
    }

    /// Well-formedness: identifiers are unique, museum names are unique, and
    /// every identifier in any museum's membership resolves to a stored
    /// record (one-way referential integrity).
    pub open spec fn wf(self) -> bool {
        &&& ids_unicos(self.memes_vista())
        &&& nombres_unicos(self.museos_vista())
        &&& forall|i: int, k: int|
            0 <= i < self.museos_vista().len() && 0 <= k < self.museos_vista()[i].1@.len()
                ==> contiene_id(self.memes_vista(), #[trigger] self.museos_vista()[i].1@[k])
    }
}

/// Where identifiers are unique, a position holding `id` is the position
/// `indice_del_id` picks.
pub proof fn lema_indice_del_id(s: Seq<Meme>, i: int, id: u64)
    requires
        ids_unicos(s),
        0 <= i < s.len(),
        s[i].id == id,
    ensures
        contiene_id(s, id),
        indice_del_id(s, id) == i,
{
    assert(contiene_id(s, id));
    let j = indice_del_id(s, id);
    if i < j {
        assert(s[i].id != s[j].id);
    } else if j < i {
        assert(s[j].id != s[i].id);
    }
}

/// Where museum names are unique, a position holding `nombre` is the
/// position `indice_del_nombre` picks.
pub proof fn lema_indice_del_nombre(s: Seq<(String, Vec<u64>)>, i: int, nombre: Seq<char>)
    requires
        nombres_unicos(s),
        0 <= i < s.len(),
        s[i].0@ == nombre,
    ensures
        contiene_nombre(s, nombre),
        indice_del_nombre(s, nombre) == i,
{
    assert(contiene_nombre(s, nombre));
    let j = indice_del_nombre(s, nombre);
    if i < j {
        assert(s[i].0@ != s[j].0@);
    } else if j < i {
        assert(s[j].0@ != s[i].0@);
    }
}

impl SimpleMemeMuseum {
    /// Linear scan of the primary store for the position of `id`.
    fn buscar_meme(&self, id: u64) -> (r: Option<usize>)
        ensures
            r is Some <==> contiene_id(self.memes_vista(), id),
            r matches Some(i) ==> 0 <= i < self.memes_vista().len()
                && self.memes_vista()[i as int].id == id,
    {
        let mut k: usize = 0;
        while k < self.memes.len()
            invariant
                0 <= k <= self.memes@.len(),
                forall|q: int| 0 <= q < k ==> (#[trigger] self.memes@[q]).id != id,
            decreases self.memes@.len() - k,
        {
            if self.memes[k].id == id {
                return Some(k);
            }
            k = k + 1;
        }
        None
    }

    /// Linear scan of the museum index for the position of `nombre`.
    fn buscar_museo(&self, nombre: &String) -> (r: Option<usize>)
        ensures
            r is Some <==> contiene_nombre(self.museos_vista(), nombre@),
            r matches Some(i) ==> 0 <= i < self.museos_vista().len()
                && self.museos_vista()[i as int].0@ == nombre@,
    {
        let mut k: usize = 0;
        while k < self.museos.len()
            invariant
                0 <= k <= self.museos@.len(),
                forall|q: int| 0 <= q < k ==> (#[trigger] self.museos@[q]).0@ != nombre@,
            decreases self.museos@.len() - k,
        {
            if self.museos[k].0 == *nombre {
                return Some(k);
            }
            k = k + 1;
        }
        None
    }
}

/// Appending a record with a fresh identifier keeps identifiers unique,
/// keeps every stored identifier resolvable at its old position, and makes
/// the new identifier resolve to the appended record.
pub proof fn lema_agregar_meme(s: Seq<Meme>, m: Meme)
    requires
        ids_unicos(s),
        !contiene_id(s, m.id),
    ensures
        ids_unicos(s.push(m)),
        contiene_id(s.push(m), m.id),
        indice_del_id(s.push(m), m.id) == s.len(),
        forall|x: u64| contiene_id(s, x) ==> #[trigger] contiene_id(s.push(m), x),
        forall|x: u64|
            x != m.id ==> (#[trigger] contiene_id(s.push(m), x) <==> contiene_id(s, x)),
        forall|x: u64|
            contiene_id(s, x) ==> #[trigger] indice_del_id(s.push(m), x) == indice_del_id(s, x),
{
    let t = s.push(m);
    assert(forall|q: int| 0 <= q < s.len() ==> #[trigger] t[q] == s[q]);
    assert(t[s.len() as int] == m);
    lema_indice_del_id(t, s.len() as int, m.id);
    assert forall|x: u64| contiene_id(s, x) implies #[trigger] contiene_id(t, x) by {
        let q = indice_del_id(s, x);
        assert(t[q].id == x);
    }
    assert forall|x: u64| contiene_id(s, x) implies #[trigger] indice_del_id(t, x)
        == indice_del_id(s, x) by {
        let q = indice_del_id(s, x);
        assert(t[q].id == x);
        lema_indice_del_id(t, q, x);
    }
    assert forall|x: u64| x != m.id && contiene_id(t, x) implies contiene_id(s, x) by {
        let q = indice_del_id(t, x);
        assert(t[q].id == x);
        assert(q < s.len());
    }
}

/// Replacing the record at one position by a record carrying the same
/// identifier keeps identifiers unique and leaves every identifier's
/// existence and position unchanged.
pub proof fn lema_actualizar_meme(s: Seq<Meme>, j: int, m: Meme)
    requires
        ids_unicos(s),
        0 <= j < s.len(),
        m.id == s[j].id,
    ensures
        ids_unicos(s.update(j, m)),
        forall|x: u64| (#[trigger] contiene_id(s.update(j, m), x)) <==> contiene_id(s, x),
        forall|x: u64|
            contiene_id(s, x) ==> #[trigger] indice_del_id(s.update(j, m), x) == indice_del_id(
                s,
                x,
            ),
{
    let t = s.update(j, m);
    assert(forall|q: int| 0 <= q < t.len() ==> (#[trigger] t[q]).id == s[q].id);
    assert forall|x: u64| (#[trigger] contiene_id(t, x)) <==> contiene_id(s, x) by {
        if contiene_id(t, x) {
            let q = indice_del_id(t, x);
            assert(s[q].id == x);
        }
        if contiene_id(s, x) {
            let q = indice_del_id(s, x);
            assert(t[q].id == x);
        }
    }
    assert forall|x: u64| contiene_id(s, x) implies #[trigger] indice_del_id(t, x)
        == indice_del_id(s, x) by {
        let q = indice_del_id(s, x);
        assert(t[q].id == x);
        lema_indice_del_id(t, q, x);
    }
}

/// Replacing one museum entry by a new value carrying the same name keeps
/// names unique, maps that name to the new membership, and leaves every
/// other name's existence and membership unchanged.
pub proof fn lema_actualizar_entrada(s: Seq<(String, Vec<u64>)>, i: int, e: (String, Vec<u64>))
    requires
        nombres_unicos(s),
        0 <= i < s.len(),
        e.0@ == s[i].0@,
    ensures
        nombres_unicos(s.update(i, e)),
        contiene_nombre(s.update(i, e), e.0@),
        indice_del_nombre(s.update(i, e), e.0@) == i,
        miembros_de(s.update(i, e), e.0@) == e.1@,
        forall|n: Seq<char>|
            n != e.0@ ==> (#[trigger] contiene_nombre(s.update(i, e), n) <==> contiene_nombre(
                s,
                n,
            )),
        forall|n: Seq<char>|
            n != e.0@ ==> #[trigger] miembros_de(s.update(i, e), n) == miembros_de(s, n),
        forall|q: int| 0 <= q < s.len() ==> (#[trigger] s.update(i, e)[q]).0@ == s[q].0@,
{
    let t = s.update(i, e);
    assert(forall|q: int| 0 <= q < t.len() ==> (#[trigger] t[q]).0@ == s[q].0@);
    lema_indice_del_nombre(t, i, e.0@);
    assert forall|n: Seq<char>| n != e.0@ implies (#[trigger] contiene_nombre(t, n)
        <==> contiene_nombre(s, n)) by {
        if contiene_nombre(t, n) {
            let q = indice_del_nombre(t, n);
            assert(s[q].0@ == n);
        }
        if contiene_nombre(s, n) {
            let q = indice_del_nombre(s, n);
            assert(t[q].0@ == n);
        }
    }
    assert forall|n: Seq<char>| n != e.0@ implies #[trigger] miembros_de(t, n) == miembros_de(
        s,
        n,
    ) by {
        if contiene_nombre(s, n) {
            let q = indice_del_nombre(s, n);
            lema_indice_del_nombre(s, q, n);
            assert(q != i);
            lema_indice_del_nombre(t, q, n);
            assert(t[q] == s[q]);
        }
    }
}

/// Appending a museum entry under a fresh name keeps names unique, maps the
/// new name to the appended membership, and leaves every other name's
/// existence and membership unchanged.
pub proof fn lema_agregar_entrada(s: Seq<(String, Vec<u64>)>, e: (String, Vec<u64>))
    requires
        nombres_unicos(s),
        !contiene_nombre(s, e.0@),
    ensures
        nombres_unicos(s.push(e)),
        contiene_nombre(s.push(e), e.0@),
        indice_del_nombre(s.push(e), e.0@) == s.len(),
        miembros_de(s.push(e), e.0@) == e.1@,
        miembros_de(s, e.0@) == Seq::<u64>::empty(),
        forall|n: Seq<char>|
            n != e.0@ ==> (#[trigger] contiene_nombre(s.push(e), n) <==> contiene_nombre(s, n)),
        forall|n: Seq<char>|
            n != e.0@ ==> #[trigger] miembros_de(s.push(e), n) == miembros_de(s, n),
        forall|q: int| 0 <= q < s.len() ==> (#[trigger] s.push(e)[q]).0@ == s[q].0@,
{
    let t = s.push(e);
    assert(forall|q: int| 0 <= q < s.len() ==> #[trigger] t[q] == s[q]);
    assert(t[s.len() as int] == e);
    lema_indice_del_nombre(t, s.len() as int, e.0@);
    assert forall|n: Seq<char>| n != e.0@ implies (#[trigger] contiene_nombre(t, n)
        <==> contiene_nombre(s, n)) by {
        if contiene_nombre(t, n) {
            let q = indice_del_nombre(t, n);
            assert(t[q].0@ == n);
            assert(q < s.len());
        }
        if contiene_nombre(s, n) {
            let q = indice_del_nombre(s, n);
            assert(t[q].0@ == n);
        }
    }
    assert forall|n: Seq<char>| n != e.0@ implies #[trigger] miembros_de(t, n) == miembros_de(
        s,
        n,
    ) by {
        if contiene_nombre(s, n) {
            let q = indice_del_nombre(s, n);
            lema_indice_del_nombre(s, q, n);
            lema_indice_del_nombre(t, q, n);
            assert(t[q] == s[q]);
        }
    }
}

impl SimpleMemeMuseum {
    /// The only sanctioned way to introduce a record. Builds the record,
    /// stores it under `id`, then files `id` under `nombre_museo`, creating
    /// that museum on first use. The identifier and the submitter identity
    /// come from the caller: the host sequence and identity providers supply
    /// them, and successive identifiers are distinct, so a fresh `id` is a
    /// precondition, not something checked here.
    ///
    /// The store insert happens before the index insert, so the index never
    /// points at a missing record.
    pub fn crear_meme(
        &mut self,
        id: u64,
        creado_por: String,
        titulo: String,
        url: String,
        nombre_museo: String,
    )
        requires
            old(self).wf(),
            !old(self).tiene_meme(id),
        ensures
            final(self).wf(),
            final(self).memes_vista() == old(self).memes_vista().push(
                (Meme {
                    id,
                    creado_por,
                    titulo,
                    museo: nombre_museo,
                    url,
                    donaciones: 0,
                }),
            ),
            final(self).tiene_meme(id),
            final(self).meme_con_id(id) == (Meme {
                id,
                creado_por,
                titulo,
                museo: nombre_museo,
                url,
                donaciones: 0,
            }),
            forall|x: u64|
                x != id ==> (#[trigger] final(self).tiene_meme(x) <==> old(self).tiene_meme(x)),
            forall|x: u64|
                old(self).tiene_meme(x) ==> #[trigger] final(self).meme_con_id(x) == old(
                    self,
                ).meme_con_id(x),
            final(self).tiene_museo(nombre_museo@),
            final(self).miembros(nombre_museo@) == old(self).miembros(nombre_museo@).push(id),
            forall|n: Seq<char>|
                n != nombre_museo@ ==> #[trigger] final(self).miembros(n) == old(self).miembros(n),
            forall|n: Seq<char>|
                n != nombre_museo@
                    ==> (#[trigger] final(self).tiene_museo(n) <==> old(self).tiene_museo(n)),
            old(self).tiene_museo(nombre_museo@)
                ==> final(self).museos_vista().len() == old(self).museos_vista().len(),
            !old(self).tiene_museo(nombre_museo@)
                ==> final(self).museos_vista().len() == old(self).museos_vista().len() + 1,
            forall|i: int|
                0 <= i < old(self).museos_vista().len()
                    ==> (#[trigger] final(self).museos_vista()[i]).0@
                        == old(self).museos_vista()[i].0@,
    {
        let meme = Meme::new(id, creado_por, titulo, url, nombre_museo.clone());
        proof {
            lema_agregar_meme(self.memes@, meme);
        }
        self.memes.push(meme);
        match self.buscar_museo(&nombre_museo) {
            Some(i) => {
                proof {
                    lema_indice_del_nombre(self.museos@, i as int, nombre_museo@);
                }
                let mut entrada = self.museos.remove(i);
                entrada.1.push(id);
                let ghost ev = entrada;
                self.museos.insert(i, entrada);
                proof {
                    old(self).museos@.remove_ensures(i as int);
                    old(self).museos@.remove(i as int).insert_ensures(i as int, ev);
                    assert(self.museos@ =~= old(self).museos@.update(i as int, ev));
                    lema_indice_del_nombre(old(self).museos@, i as int, nombre_museo@);
                    lema_actualizar_entrada(old(self).museos@, i as int, ev);
                    assert(self.wf());
                }
            },
            None => {
                let mut ids_nuevos: Vec<u64> = Vec::new();
                ids_nuevos.push(id);
                let entrada = (nombre_museo, ids_nuevos);
                let ghost ev = entrada;
                self.museos.push(entrada);
                proof {
                    lema_agregar_entrada(old(self).museos@, ev);
                    assert(self.wf());
                }
            },
        }
    }
}

impl SimpleMemeMuseum {
    /// Records a donation of `deposito` against the record with identifier
    /// `id`. The deposit is read by the caller from the host environment and
    /// must be positive. On success the record's counter grows by exactly
    /// `deposito`, every other record and every museum stays as it was, and
    /// the returned instruction tells the caller to move the amount to the
    /// record's submitter. The counter stays incremented whatever later
    /// becomes of that transfer. An unknown identifier changes nothing and
    /// yields no instruction.
    pub fn donar_a_meme(&mut self, id: u64, deposito: u128) -> (r: Option<Transferencia>)
        requires
            old(self).wf(),
            deposito > 0,
            old(self).tiene_meme(id)
                ==> old(self).meme_con_id(id).donaciones + deposito <= u128::MAX,
        ensures
            final(self).wf(),
            r is Some <==> old(self).tiene_meme(id),
            !old(self).tiene_meme(id) ==> *final(self) == *old(self),
            final(self).museos_vista() == old(self).museos_vista(),
            forall|x: u64| #[trigger] final(self).tiene_meme(x) <==> old(self).tiene_meme(x),
            forall|x: u64|
                x != id && old(self).tiene_meme(x) ==> #[trigger] final(self).meme_con_id(x)
                    == old(self).meme_con_id(x),
            old(self).tiene_meme(id) ==> final(self).meme_con_id(id) == (Meme {
                donaciones: (old(self).meme_con_id(id).donaciones + deposito) as u128,
                ..old(self).meme_con_id(id)
            }),
            old(self).tiene_meme(id) ==> ({
                let j = indice_del_id(old(self).memes_vista(), id);
                let antes = old(self).memes_vista()[j];
                let ahora = final(self).memes_vista()[j];
                &&& final(self).memes_vista().len() == old(self).memes_vista().len()
                &&& ahora.id == antes.id
                &&& ahora.creado_por == antes.creado_por
                &&& ahora.titulo == antes.titulo
                &&& ahora.museo == antes.museo
                &&& ahora.url == antes.url
                &&& ahora.donaciones == antes.donaciones + deposito
                &&& forall|q: int|
                    0 <= q < old(self).memes_vista().len() && q != j
                        ==> final(self).memes_vista()[q] == old(self).memes_vista()[q]
            }),
            r matches Some(t) ==> t.destino == old(self).meme_con_id(id).creado_por && t.monto
                == deposito,
    {
        match self.buscar_meme(id) {
            Some(j) => {
                proof {
                    lema_indice_del_id(self.memes@, j as int, id);
                }
                let mut meme = self.memes.remove(j);
                meme.donaciones = meme.donaciones + deposito;
                let destino = meme.creado_por.clone();
                let ghost mv = meme;
                self.memes.insert(j, meme);
                proof {
                    old(self).memes@.remove_ensures(j as int);
                    old(self).memes@.remove(j as int).insert_ensures(j as int, mv);
                    assert(self.memes@ =~= old(self).memes@.update(j as int, mv));
                    lema_actualizar_meme(old(self).memes@, j as int, mv);
                    assert(self.wf());
                }
                Some(Transferencia { destino, monto: deposito })
            },
            None => None,
        }
    }
}

impl SimpleMemeMuseum {
    /// Pure lookup of the record with identifier `id`; absence is a normal
    /// outcome, not an error.
    pub fn obtener_meme(&self, id: u64) -> (r: Option<Meme>)
        requires
            self.wf(),
        ensures
            r is Some <==> self.tiene_meme(id),
            r matches Some(m) ==> m == self.meme_con_id(id),
    {
        match self.buscar_meme(id) {
            Some(j) => {
                proof {
                    lema_indice_del_id(self.memes@, j as int, id);
                }
                Some(self.memes[j].clone())
            },
            None => None,
        }
    }

    /// Every stored record, paired with its identifier, in insertion order.
    pub fn obtener_lista_memes(&self) -> (r: Vec<(u64, Meme)>)
        ensures
            r@.len() == self.memes_vista().len(),
            forall|q: int|
                0 <= q < r@.len() ==> (#[trigger] r@[q]).0 == self.memes_vista()[q].id && r@[q].1
                    == self.memes_vista()[q],
    {
        let mut lista: Vec<(u64, Meme)> = Vec::new();
        let mut k: usize = 0;
        while k < self.memes.len()
            invariant
                0 <= k <= self.memes@.len(),
                lista@.len() == k,
                forall|q: int|
                    0 <= q < k ==> (#[trigger] lista@[q]).0 == self.memes@[q].id && lista@[q].1
                        == self.memes@[q],
            decreases self.memes@.len() - k,
        {
            lista.push((self.memes[k].id, self.memes[k].clone()));
            k = k + 1;
        }
        lista
    }

    /// Every known museum name, in order of first submission under each name.
    pub fn obtener_lista_museos(&self) -> (r: Vec<String>)
        ensures
            r@.len() == self.museos_vista().len(),
            forall|q: int|
                0 <= q < r@.len() ==> (#[trigger] r@[q])@ == self.museos_vista()[q].0@,
    {
        let mut lista: Vec<String> = Vec::new();
        let mut k: usize = 0;
        while k < self.museos.len()
            invariant
                0 <= k <= self.museos@.len(),
                lista@.len() == k,
                forall|q: int| 0 <= q < k ==> (#[trigger] lista@[q])@ == self.museos@[q].0@,
            decreases self.museos@.len() - k,
        {
            lista.push(self.museos[k].0.clone());
            k = k + 1;
        }
        lista
    }

    /// The records filed under `nombre_museo`, in membership order; an
    /// unknown name yields the empty sequence, never an error. Under
    /// well-formedness every membership identifier resolves, so the result
    /// carries one record per member.
    pub fn obtener_memes_museo(&self, nombre_museo: String) -> (r: Vec<Meme>)
        requires
            self.wf(),
        ensures
            r@.len() == self.miembros(nombre_museo@).len(),
            forall|q: int|
                0 <= q < r@.len() ==> #[trigger] r@[q] == self.meme_con_id(
                    self.miembros(nombre_museo@)[q],
                ),
    {
        match self.buscar_museo(&nombre_museo) {
            Some(i) => {
                proof {
                    lema_indice_del_nombre(self.museos@, i as int, nombre_museo@);
                }
                let mut lista: Vec<Meme> = Vec::new();
                let mut k: usize = 0;
                while k < self.museos[i].1.len()
                    invariant
                        self.wf(),
                        0 <= i < self.museos@.len(),
                        self.museos@[i as int].0@ == nombre_museo@,
                        self.miembros(nombre_museo@) == self.museos@[i as int].1@,
                        0 <= k <= self.museos@[i as int].1@.len(),
                        lista@.len() == k,
                        forall|q: int|
                            0 <= q < k ==> #[trigger] lista@[q] == self.meme_con_id(
                                self.museos@[i as int].1@[q],
                            ),
                    decreases self.museos@[i as int].1@.len() - k,
                {
                    let id_miembro = self.museos[i].1[k];
                    if let Some(m) = self.obtener_meme(id_miembro) {
                        lista.push(m);
                    }
                    k = k + 1;
                }
                lista
            },
            None => Vec::new(),
        }
    }
}

/// Referential integrity: in a well-formed registry, every identifier
/// appearing in any museum's membership resolves to a stored record, so
/// `obtener_meme` returns it. Every operation of the registry preserves
/// well-formedness, so this holds after any sequence of submissions.
pub proof fn lema_integridad_referencial(m: SimpleMemeMuseum, nombre: Seq<char>, k: int)
    requires
        m.wf(),
        0 <= k < m.miembros(nombre).len(),
    ensures
        m.tiene_meme(m.miembros(nombre)[k]),
{
    let s = m.museos_vista();
    let i = indice_del_nombre(s, nombre);
    assert(0 <= i < s.len() && s[i].0@ == nombre);
    assert(contiene_id(m.memes_vista(), s[i].1@[k]));
}

/// A museum name that no submission has introduced has an empty membership:
/// asking for its records is a normal query with an empty answer, never an
/// error.
pub proof fn lema_museo_desconocido_vacio(m: SimpleMemeMuseum, nombre: Seq<char>)
    requires
        !m.tiene_museo(nombre),
    ensures
        m.miembros(nombre) == Seq::<u64>::empty(),
{
}

impl Default for SimpleMemeMuseum {
    /// The empty registry: no records, no museums.
    fn default() -> (m: SimpleMemeMuseum)
        ensures
            m.wf(),
            m.memes_vista() == Seq::<Meme>::empty(),
            m.museos_vista() == Seq::<(String, Vec<u64>)>::empty(),
            forall|id: u64| !(#[trigger] m.tiene_meme(id)),
            forall|n: Seq<char>| !(#[trigger] m.tiene_museo(n)),
    {
        SimpleMemeMuseum { museos: Vec::new(), memes: Vec::new() }
    }
}

} // verus!
