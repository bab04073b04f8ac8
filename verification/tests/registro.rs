use meme_museum::types;
use meme_museum::{Meme, SimpleMemeMuseum};

fn crear(m: &mut SimpleMemeMuseum, id: u64, quien: &str, titulo: &str, url: &str, museo: &str) {
    m.crear_meme(
        id,
        quien.to_string(),
        titulo.to_string(),
        url.to_string(),
        museo.to_string(),
    );
}

#[test]
fn meme_nuevo_empieza_sin_donaciones() {
    let m = Meme::new(
        7,
        "alice".to_string(),
        "t1".to_string(),
        "p1".to_string(),
        "funnies".to_string(),
    );
    assert_eq!(m.id, 7);
    assert_eq!(m.creado_por, "alice");
    assert_eq!(m.titulo, "t1");
    assert_eq!(m.url, "p1");
    assert_eq!(m.museo, "funnies");
    assert_eq!(m.donaciones, 0);
}

#[test]
fn meme_por_defecto_esta_vacio() {
    let m = Meme::default();
    assert_eq!(m.id, 0);
    assert_eq!(m.creado_por, "");
    assert_eq!(m.titulo, "");
    assert_eq!(m.url, "");
    assert_eq!(m.museo, "");
    assert_eq!(m.donaciones, 0);
}

#[test]
fn meme_reducido_nuevo_y_por_defecto() {
    let m = types::Meme::new(
        3,
        "carol".to_string(),
        "t3".to_string(),
        "datos3".to_string(),
    );
    assert_eq!(m.id, 3);
    assert_eq!(m.creado_por, "carol");
    assert_eq!(m.titulo, "t3");
    assert_eq!(m.datos, "datos3");
    assert_eq!(m.votos, 0);
    let d = types::Meme::default();
    assert_eq!(d.id, 0);
    assert_eq!(d.creado_por, "");
    assert_eq!(d.titulo, "");
    assert_eq!(d.datos, "");
    assert_eq!(d.votos, 0);
}

#[test]
fn registro_vacio_no_tiene_nada() {
    let m = SimpleMemeMuseum::default();
    assert!(m.obtener_meme(1).is_none());
    assert!(m.obtener_lista_memes().is_empty());
    assert!(m.obtener_lista_museos().is_empty());
    assert!(m.obtener_memes_museo("funnies".to_string()).is_empty());
}

#[test]
fn escenario_dos_envios_y_una_donacion() {
    let mut m = SimpleMemeMuseum::default();
    crear(&mut m, 1, "alice", "t1", "p1", "funnies");
    crear(&mut m, 2, "bob", "t2", "p2", "funnies");

    let lista = m.obtener_memes_museo("funnies".to_string());
    assert_eq!(lista.len(), 2);
    assert_eq!(lista[0].id, 1);
    assert_eq!(lista[0].creado_por, "alice");
    assert_eq!(lista[0].titulo, "t1");
    assert_eq!(lista[1].id, 2);
    assert_eq!(lista[1].creado_por, "bob");
    assert_eq!(lista[1].titulo, "t2");

    let primero = m.obtener_meme(1).unwrap();
    assert_eq!(primero.donaciones, 0);
    let segundo = m.obtener_meme(2).unwrap();
    assert_eq!(segundo.donaciones, 0);

    let t = m.donar_a_meme(1, 5).unwrap();
    assert_eq!(t.destino, "alice");
    assert_eq!(t.monto, 5);
    assert_eq!(m.obtener_meme(1).unwrap().donaciones, 5);
}

#[test]
fn todo_miembro_resuelve_a_un_meme() {
    let mut m = SimpleMemeMuseum::default();
    crear(&mut m, 1, "alice", "t1", "p1", "funnies");
    crear(&mut m, 2, "bob", "t2", "p2", "cats");
    crear(&mut m, 3, "carol", "t3", "p3", "funnies");
    for nombre in m.obtener_lista_museos() {
        let dentro = m.obtener_memes_museo(nombre.clone());
        assert!(!dentro.is_empty());
        for meme in dentro {
            let guardado = m.obtener_meme(meme.id).unwrap();
            assert_eq!(guardado.id, meme.id);
            assert_eq!(guardado.museo, nombre);
        }
    }
}

#[test]
fn museo_nunca_usado_responde_vacio() {
    let mut m = SimpleMemeMuseum::default();
    assert!(m.obtener_memes_museo("dogs".to_string()).is_empty());
    crear(&mut m, 1, "alice", "t1", "p1", "funnies");
    assert!(m.obtener_memes_museo("dogs".to_string()).is_empty());
    assert_eq!(m.obtener_lista_museos(), vec!["funnies".to_string()]);
}

#[test]
fn donar_a_desconocido_no_cambia_nada() {
    let mut m = SimpleMemeMuseum::default();
    crear(&mut m, 1, "alice", "t1", "p1", "funnies");
    assert!(m.donar_a_meme(99, 5).is_none());
    let lista = m.obtener_lista_memes();
    assert_eq!(lista.len(), 1);
    assert_eq!(lista[0].0, 1);
    assert_eq!(lista[0].1.donaciones, 0);
    assert_eq!(m.obtener_lista_museos().len(), 1);
}

#[test]
fn donar_suma_exactamente_y_no_toca_al_resto() {
    let mut m = SimpleMemeMuseum::default();
    crear(&mut m, 1, "alice", "t1", "p1", "funnies");
    crear(&mut m, 2, "bob", "t2", "p2", "funnies");
    let t = m.donar_a_meme(2, 40).unwrap();
    assert_eq!(t.destino, "bob");
    assert_eq!(t.monto, 40);
    let t2 = m.donar_a_meme(2, 2).unwrap();
    assert_eq!(t2.destino, "bob");
    assert_eq!(t2.monto, 2);
    assert_eq!(m.obtener_meme(2).unwrap().donaciones, 42);
    assert_eq!(m.obtener_meme(1).unwrap().donaciones, 0);
    let miembros = m.obtener_memes_museo("funnies".to_string());
    assert_eq!(miembros.len(), 2);
    assert_eq!(miembros[0].id, 1);
    assert_eq!(miembros[1].id, 2);
}

#[test]
fn museos_distintos_son_independientes() {
    let mut m = SimpleMemeMuseum::default();
    crear(&mut m, 1, "alice", "t1", "p1", "funnies");
    crear(&mut m, 2, "bob", "t2", "p2", "cats");
    let nombres = m.obtener_lista_museos();
    assert_eq!(
        nombres,
        vec!["funnies".to_string(), "cats".to_string()]
    );
    let funnies = m.obtener_memes_museo("funnies".to_string());
    let cats = m.obtener_memes_museo("cats".to_string());
    assert_eq!(funnies.len(), 1);
    assert_eq!(funnies[0].id, 1);
    assert_eq!(cats.len(), 1);
    assert_eq!(cats[0].id, 2);

    crear(&mut m, 3, "carol", "t3", "p3", "funnies");
    let funnies = m.obtener_memes_museo("funnies".to_string());
    assert_eq!(funnies.len(), 2);
    assert_eq!(funnies[0].id, 1);
    assert_eq!(funnies[0].creado_por, "alice");
    assert_eq!(funnies[1].id, 3);
    let cats = m.obtener_memes_museo("cats".to_string());
    assert_eq!(cats.len(), 1);
    assert_eq!(cats[0].id, 2);
    assert_eq!(m.obtener_lista_museos().len(), 2);
}

#[test]
fn lista_de_memes_en_orden_de_envio() {
    let mut m = SimpleMemeMuseum::default();
    crear(&mut m, 5, "alice", "t1", "p1", "funnies");
    crear(&mut m, 2, "bob", "t2", "p2", "cats");
    crear(&mut m, 9, "carol", "t3", "p3", "funnies");
    let lista = m.obtener_lista_memes();
    assert_eq!(lista.len(), 3);
    assert_eq!(lista[0].0, 5);
    assert_eq!(lista[1].0, 2);
    assert_eq!(lista[2].0, 9);
    assert_eq!(lista[0].1.id, 5);
    assert_eq!(lista[1].1.creado_por, "bob");
    assert_eq!(lista[2].1.titulo, "t3");
}

#[test]
fn titulos_vacios_tambien_se_guardan() {
    let mut m = SimpleMemeMuseum::default();
    crear(&mut m, 1, "", "", "", "");
    let lista = m.obtener_memes_museo("".to_string());
    assert_eq!(lista.len(), 1);
    assert_eq!(lista[0].id, 1);
    assert_eq!(lista[0].creado_por, "");
    let nombres = m.obtener_lista_museos();
    assert_eq!(nombres, vec!["".to_string()]);
}
