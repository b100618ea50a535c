//! Word transcriptions, letter by letter.

use pronunciation::pl::transcription::{envoices, transcribe};
use pronunciation::pl::phoneset::Phone::{
    A, B, C, Ci, Cz, D, Dz, Dzh, Dzi, E, F, G, H, I, J, K, L, M, N, Ng, Ni, O, P, R, S, Si, Sz,
    T, U, V, W, Wx, Y, Z, Zh, Zi,
};

#[test]
fn test_envoicing() {
    assert!(envoices(&B));
    assert!(envoices(&Dzi));
    assert!(envoices(&V));
}

#[test]
fn test_letter_ax() {
    assert_eq!(transcribe("idą"), Some(vec![I, D, O, Wx]));
    assert_eq!(transcribe("dąb"), Some(vec![D, O, M, B]));
    assert_eq!(transcribe("bądź"), Some(vec![B, O, N, Dzi]));
    assert_eq!(transcribe("dąć"), Some(vec![D, O, N, Ci]));
    assert_eq!(transcribe("bąk"), Some(vec![B, O, Ng, K]));
    assert_eq!(transcribe("wąs"), Some(vec![V, O, Wx, S]));
}

#[test]
fn test_letter_b() {
    assert_eq!(transcribe("bar"), Some(vec![B, A, R]));
    assert_eq!(transcribe("karb"), Some(vec![K, A, R, B]));
    assert_eq!(transcribe("babka"), Some(vec![B, A, P, K, A]));
}

#[test]
fn test_letter_c() {
    assert_eq!(transcribe("cap"), Some(vec![C, A, P]));
    assert_eq!(transcribe("pac"), Some(vec![P, A, C]));
    assert_eq!(transcribe("paca"), Some(vec![P, A, C, A]));
    assert_eq!(transcribe("tancbuda"), Some(vec![T, A, N, Dz, B, U, D, A]));

    assert_eq!(transcribe("ciasto"), Some(vec![Ci, A, S, T, O]));
    assert_eq!(transcribe("koci"), Some(vec![K, O, Ci, I]));
    assert_eq!(transcribe("kocia"), Some(vec![K, O, Ci, A]));

    assert_eq!(transcribe("czy"), Some(vec![Cz, Y]));
    assert_eq!(transcribe("bacz"), Some(vec![B, A, Cz]));
    assert_eq!(transcribe("baczże"), Some(vec![B, A, Dzh, Zh, E]));

    assert_eq!(transcribe("bach"), Some(vec![B, A, H]));
    assert_eq!(transcribe("cham"), Some(vec![H, A, M]));
}

#[test]
fn test_letter_ci() {
    assert_eq!(transcribe("myć"), Some(vec![M, Y, Ci]));
    assert_eq!(transcribe("ćma"), Some(vec![Ci, M, A]));
    assert_eq!(
        transcribe("ćwierćinteligent"),
        Some(vec![Ci, F, J, E, R, Ci, I, N, T, E, L, I, G, E, N, T])
    );
}

#[test]
fn test_letter_d() {
    assert_eq!(transcribe("dama"), Some(vec![D, A, M, A]));
    assert_eq!(transcribe("trud"), Some(vec![T, R, U, D]));
    assert_eq!(transcribe("kładka"), Some(vec![K, W, A, T, K, A]));

    assert_eq!(transcribe("widz"), Some(vec![V, I, Dz]));
    assert_eq!(transcribe("dzwon"), Some(vec![Dz, V, O, N]));
    assert_eq!(transcribe("łódzki"), Some(vec![W, U, C, K, I]));

    assert_eq!(transcribe("dziad"), Some(vec![Dzi, A, D]));
    assert_eq!(transcribe("młodzi"), Some(vec![M, W, O, Dzi, I]));

    assert_eq!(transcribe("łódź"), Some(vec![W, U, Dzi]));
    assert_eq!(transcribe("dźwig"), Some(vec![Dzi, V, I, G]));
    assert_eq!(transcribe("pójdźka"), Some(vec![P, U, J, Ci, K, A]));

    assert_eq!(transcribe("dżem"), Some(vec![Dzh, E, M]));
    assert_eq!(transcribe("dżdżownica"), Some(vec![Dzh, Dzh, O, V, Ni, I, C, A]));
    assert_eq!(transcribe("różdżka"), Some(vec![R, U, Sz, Cz, K, A]));
}

#[test]
fn test_letter_ex() {
    assert_eq!(transcribe("więcej"), Some(vec![V, J, E, N, C, E, J]));
    assert_eq!(transcribe("dźwięk"), Some(vec![Dzi, V, J, E, Ng, K]));
    assert_eq!(transcribe("kurczę"), Some(vec![K, U, R, Cz, E, Wx]));
    assert_eq!(transcribe("kęs"), Some(vec![K, E, Wx, S]));
    assert_eq!(transcribe("dębu"), Some(vec![D, E, M, B, U]));
}

#[test]
fn test_letter_f() {
    assert_eq!(transcribe("fala"), Some(vec![F, A, L, A]));
    assert_eq!(transcribe("klif"), Some(vec![K, L, I, F]));
    assert_eq!(transcribe("afgan"), Some(vec![A, V, G, A, N]));
}

#[test]
fn test_letter_g() {
    assert_eq!(transcribe("gęś"), Some(vec![G, E, Wx, Si]));
    assert_eq!(transcribe("magia"), Some(vec![M, A, G, J, A]));
    assert_eq!(transcribe("dog"), Some(vec![D, O, G]));
    assert_eq!(transcribe("angst"), Some(vec![A, Ng, K, S, T]));
    assert_eq!(transcribe("gwiazda"), Some(vec![G, V, J, A, Z, D, A]));
}

#[test]
fn test_letter_h() {
    assert_eq!(transcribe("habit"), Some(vec![H, A, B, I, T]));
    assert_eq!(transcribe("druh"), Some(vec![D, R, U, H]));
    assert_eq!(transcribe("chata"), Some(vec![H, A, T, A]));
}

#[test]
fn test_letter_i() {
    assert_eq!(transcribe("ile"), Some(vec![I, L, E]));
    assert_eq!(transcribe("cisza"), Some(vec![Ci, I, Sz, A]));
    assert_eq!(transcribe("cierń"), Some(vec![Ci, E, R, Ni]));
    assert_eq!(transcribe("sień"), Some(vec![Si, E, Ni]));
    assert_eq!(transcribe("wieża"), Some(vec![V, J, E, Zh, A]));
    assert_eq!(transcribe("koci"), Some(vec![K, O, Ci, I]));
    assert_eq!(transcribe("wije"), Some(vec![V, I, J, E]));
    assert_eq!(transcribe("kiedy"), Some(vec![K, J, E, D, Y]));
    assert_eq!(transcribe("siad"), Some(vec![Si, A, D]));
}

#[test]
fn test_letter_j() {
    assert_eq!(transcribe("kij"), Some(vec![K, I, J]));
    assert_eq!(transcribe("jak"), Some(vec![J, A, K]));
}

#[test]
fn test_letter_k() {
    assert_eq!(transcribe("kod"), Some(vec![K, O, D]));
    assert_eq!(transcribe("dok"), Some(vec![D, O, K]));
    assert_eq!(transcribe("także"), Some(vec![T, A, G, Zh, E]));
    assert_eq!(transcribe("kwiat"), Some(vec![K, F, J, A, T]));
}

#[test]
fn test_letter_l() {
    assert_eq!(transcribe("lama"), Some(vec![L, A, M, A]));
    assert_eq!(transcribe("halka"), Some(vec![H, A, L, K, A]));
    assert_eq!(transcribe("bal"), Some(vec![B, A, L]));
}

#[test]
fn test_letter_ll() {
    assert_eq!(transcribe("łamy"), Some(vec![W, A, M, Y]));
    assert_eq!(transcribe("bułka"), Some(vec![B, U, W, K, A]));
    assert_eq!(transcribe("pół"), Some(vec![P, U, W]));
}

#[test]
fn test_letter_m() {
    assert_eq!(transcribe("mamka"), Some(vec![M, A, M, K, A]));
    assert_eq!(transcribe("wyłom"), Some(vec![V, Y, W, O, M]));
}

#[test]
fn test_letter_n() {
    assert_eq!(transcribe("najmniej"), Some(vec![N, A, J, M, Ni, E, J]));
    assert_eq!(transcribe("mnie"), Some(vec![M, Ni, E]));
    assert_eq!(transcribe("nas"), Some(vec![N, A, S]));
    assert_eq!(transcribe("sanna"), Some(vec![S, A, N, N, A]));
    assert_eq!(transcribe("pani"), Some(vec![P, A, Ni, I]));
}

#[test]
fn test_letter_ni() {
    assert_eq!(transcribe("koń"), Some(vec![K, O, Ni]));
    assert_eq!(transcribe("kończ"), Some(vec![K, O, Ni, Cz]));
}

#[test]
fn test_letter_o() {
    assert_eq!(transcribe("polo"), Some(vec![P, O, L, O]));
    assert_eq!(transcribe("olcha"), Some(vec![O, L, H, A]));
}

#[test]
fn test_letter_oo() {
    assert_eq!(transcribe("pół"), Some(vec![P, U, W]));
    assert_eq!(transcribe("ósmy"), Some(vec![U, S, M, Y]));
}

#[test]
fn test_letter_p() {
    assert_eq!(transcribe("pada"), Some(vec![P, A, D, A]));
    assert_eq!(transcribe("łup"), Some(vec![W, U, P]));
    assert_eq!(transcribe("krepdeszyn"), Some(vec![K, R, E, B, D, E, Sz, Y, N]));
}

#[test]
fn test_letter_r() {
    assert_eq!(transcribe("rada"), Some(vec![R, A, D, A]));
    assert_eq!(transcribe("kar"), Some(vec![K, A, R]));
    assert_eq!(transcribe("arka"), Some(vec![A, R, K, A]));
    assert_eq!(transcribe("erg"), Some(vec![E, R, G]));
    assert_eq!(transcribe("rzepa"), Some(vec![Zh, E, P, A]));
    assert_eq!(transcribe("perz"), Some(vec![P, E, Zh]));
}

#[test]
fn test_letter_s() {
    assert_eq!(transcribe("staw"), Some(vec![S, T, A, V]));
    assert_eq!(transcribe("podstawa"), Some(vec![P, O, T, S, T, A, V, A]));
    assert_eq!(transcribe("bejsbol"), Some(vec![B, E, J, Z, B, O, L]));

    assert_eq!(transcribe("szum"), Some(vec![Sz, U, M]));
    assert_eq!(transcribe("muszla"), Some(vec![M, U, Sz, L, A]));
    assert_eq!(transcribe("szlam"), Some(vec![Sz, L, A, M]));
    assert_eq!(transcribe("mysz"), Some(vec![M, Y, Sz]));
    assert_eq!(transcribe("fiszbin"), Some(vec![F, I, Zh, B, I, N]));

    assert_eq!(transcribe("siedzi"), Some(vec![Si, E, Dzi, I]));
    assert_eq!(transcribe("mysi"), Some(vec![M, Y, Si, I]));
}

#[test]
fn test_letter_si() {
    assert_eq!(transcribe("śpiwór"), Some(vec![Si, P, I, V, U, R]));
    assert_eq!(transcribe("myśl"), Some(vec![M, Y, Si, L]));
    assert_eq!(transcribe("skoś"), Some(vec![S, K, O, Si]));
    assert_eq!(transcribe("prośba"), Some(vec![P, R, O, Zi, B, A]));
}

#[test]
fn test_letter_t() {
    assert_eq!(transcribe("trawa"), Some(vec![T, R, A, V, A]));
    assert_eq!(transcribe("towot"), Some(vec![T, O, V, O, T]));
    assert_eq!(transcribe("futbol"), Some(vec![F, U, D, B, O, L]));
}

#[test]
fn test_letter_u() {
    assert_eq!(transcribe("ukrop"), Some(vec![U, K, R, O, P]));
    assert_eq!(transcribe("kotu"), Some(vec![K, O, T, U]));
}

#[test]
fn test_letter_w() {
    assert_eq!(transcribe("witaj"), Some(vec![V, I, T, A, J]));
    assert_eq!(transcribe("staw"), Some(vec![S, T, A, V]));
    assert_eq!(transcribe("gwizd"), Some(vec![G, V, I, Z, D]));
    assert_eq!(transcribe("kwiat"), Some(vec![K, F, J, A, T]));
    assert_eq!(transcribe("świat"), Some(vec![Si, F, J, A, T]));
}

#[test]
fn test_letter_y() {
    assert_eq!(transcribe("myśl"), Some(vec![M, Y, Si, L]));
    assert_eq!(transcribe("nowy"), Some(vec![N, O, V, Y]));
}

#[test]
fn test_letter_z() {
    assert_eq!(transcribe("zęby"), Some(vec![Z, E, M, B, Y]));
    assert_eq!(transcribe("zza"), Some(vec![Z, Z, A]));
    assert_eq!(transcribe("głaz"), Some(vec![G, W, A, Z]));

    assert_eq!(transcribe("szum"), Some(vec![Sz, U, M]));
    assert_eq!(transcribe("mysz"), Some(vec![M, Y, Sz]));
    assert_eq!(transcribe("czar"), Some(vec![Cz, A, R]));
    assert_eq!(transcribe("pucz"), Some(vec![P, U, Cz]));
    assert_eq!(transcribe("dzyń"), Some(vec![Dz, Y, Ni]));
    assert_eq!(transcribe("rydz"), Some(vec![R, Y, Dz]));
    assert_eq!(transcribe("gdzie"), Some(vec![G, Dzi, E]));
    assert_eq!(transcribe("dzik"), Some(vec![Dzi, I, K]));
}

#[test]
fn test_letter_zi() {
    assert_eq!(transcribe("maź"), Some(vec![M, A, Zi]));
    assert_eq!(transcribe("łódź"), Some(vec![W, U, Dzi]));
    assert_eq!(transcribe("weźcie"), Some(vec![V, E, Si, Ci, E]));
    assert_eq!(transcribe("dźwig"), Some(vec![Dzi, V, I, G]));
    assert_eq!(transcribe("idźcie"), Some(vec![I, Ci, Ci, E]));
}

#[test]
fn test_letter_zz() {
    assert_eq!(transcribe("żaba"), Some(vec![Zh, A, B, A]));
    assert_eq!(transcribe("angaż"), Some(vec![A, Ng, G, A, Zh]));
    assert_eq!(transcribe("móżdżek"), Some(vec![M, U, Zh, Dzh, E, K]));
    assert_eq!(transcribe("dżem"), Some(vec![Dzh, E, M]));
    assert_eq!(transcribe("móżdżku"), Some(vec![M, U, Sz, Cz, K, U]));
}

#[test]
fn test_failed_transcriptions() {
    assert_eq!(transcribe("beyoncé"), None);
    assert_eq!(transcribe("übermensch"), None);
    assert_eq!(transcribe("quasi"), None);
}
