//! End-to-end behaviour of the hybrid cipher, exercised with real
//! cryptography: round trips, key binding, tamper detection, blob
//! validation, and each failure kind. Two fixed 2048-bit keypairs,
//! held as their numeric components, keep most tests cheap; the
//! scenario test generates a keypair through the library.

const KEY1_N: &str = "26365102652526299620513532634775900907585721072799606173954965266500676909134038178292266235420540312250940999145292009560745955317821745477966183144948970214686813581123854923660121631588641738097427137439023661207023928974744738935349027439356021679127627391953716154537851696439187517315237881139567500591769049622748018183141365085149891829528561697971495293821931379036226635741166562691565908957340542229719179286468384872620623237188604583074437252265675587336843572657845911893479507318615195412004401553335402103966009412334597780857673897828349783498087758325312410484709289525874593524400519225142193842359";
const KEY1_D: &str = "841933040388820422903063483973127108087934804032187046315700797136093606024068127939982979381051224755825122008095762098901605100746874940788718234867642753929897915523984533613073905650900952401669775762347529166162115741580760198593104499636321376283131709723166083669102450402538204004169253178788442927727250865061114378773446484369056952370110830934390511385042992656978156136181638908723666714158603338158336200650451925947206288944232751140049217923185827347966273686661753530228200942079772075846022094928334667288589046424974848394448136572881160473205942384264062183874170256718775587522155951521329289397";
const KEY1_P: &str = "166139976633017244912682602900198775651370513558529143660432914979102761271190171220141230263470267814099342772877322600333729730161006620788571642701543288645679687280375482870843034325152154991117305240495879912414114169315536773730048087215364226089142047453784316457464814051443544149306401391075201896813";
const KEY1_Q: &str = "158692105216576294599457868363469200657495304689871010570085255602694909575366499382061162513662078044090229323006367900636630597795369653868852503711541918710117929208281287773660313811612906216194534378308215785519119738255068028282226020897171614301914805701098607679600215166437868354417426939018800033843";

const KEY2_N: &str = "30030689774118884660295612350467079664788446988254305341092782048432351190619381445839687683970763549760711286315934028214888797392066004122266810755005363993623273484104116924106841548935590691001106956022927944000008345582271890064613660673945467237337043973713869352563637041750834777274459986263291514557739919518021281408519186851086684196423306803443523577829851054673561924212263260393055608676893960521855297440262737671518456245933334244282969580852980320104183974087573253424499569375840386812701865041806782924405972354456269713024390932727296840616635807223517438800315442857625438647272538772240675109907";
const KEY2_D: &str = "10244306512887206385826309680229752148036115707049565548593020459675875602988879583958908367894355483165621585860234357718329514608476488413559637374983252515730636337448673116160254559848307571041796964498322910417568496849261661507690851043792999958672591415510843037987533019880411640724117135097658982638850769411461048665385362585102978719237639249985310408401637507364762734217366625615872801211646412039111385698398734544416611336022708411732798439001257923456261400791288770088924508815958873503269091069765517342545220326177162107900115484746164973101486786049942125469594280394580891342629769393445568806565";
const KEY2_P: &str = "176314003696099204546180989223823153783229643080927564310626604456549399544510629211167297179552660495770135314361797182778269795030478804858004639464894939817439832550185765551728480832271634618331931061833970100998985548550741393657889811069383712454482042685121606563006685155778483670840780505933014648093";
const KEY2_Q: &str = "170325040238328430647104770909719167897735401756048108640638029258255325982647335496630969202810809752238948071108917326016528582769639543388804929900355166275024801584412195438005112909122542242734104514751391309378131461076388111129528942479177018209695217925327727797848182288895559367909529977521748405999";
use joman::errors::JournalError;
use joman::hybrid::{hyb_decrypt, hyb_encrypt};
use joman::rsa_ops::rsa_gen_keypair;

const NOT_A_KEY: &str = "not a pem key";

/// Builds a fixed 2048-bit keypair from its components and lets the
/// rsa crate serialize both halves, exactly as key generation would.
fn keypair_from_components(n: &str, d: &str, p: &str, q: &str) -> (String, String) {
    let n = rsa::BigUint::parse_bytes(n.as_bytes(), 10).unwrap();
    let e = rsa::BigUint::parse_bytes(b"65537", 10).unwrap();
    let d = rsa::BigUint::parse_bytes(d.as_bytes(), 10).unwrap();
    let p = rsa::BigUint::parse_bytes(p.as_bytes(), 10).unwrap();
    let q = rsa::BigUint::parse_bytes(q.as_bytes(), 10).unwrap();
    let key = rsa::RsaPrivateKey::from_components(n, e, d, vec![p, q]).unwrap();
    let priv_pem =
        rsa::pkcs8::EncodePrivateKey::to_pkcs8_pem(&key, rsa::pkcs8::LineEnding::LF)
            .unwrap()
            .to_string();
    let pub_pem = rsa::pkcs8::EncodePublicKey::to_public_key_pem(
        &rsa::RsaPublicKey::from(&key),
        rsa::pkcs8::LineEnding::LF,
    )
    .unwrap();
    (priv_pem, pub_pem)
}

fn keypair_one() -> (String, String) {
    keypair_from_components(KEY1_N, KEY1_D, KEY1_P, KEY1_Q)
}

fn keypair_two() -> (String, String) {
    keypair_from_components(KEY2_N, KEY2_D, KEY2_P, KEY2_Q)
}

fn b64_encode(bytes: &[u8]) -> String {
    base64::Engine::encode(&base64::engine::general_purpose::STANDARD, bytes)
}

fn b64_decode(text: &str) -> Vec<u8> {
    base64::Engine::decode(&base64::engine::general_purpose::STANDARD, text).unwrap()
}

#[test]
fn round_trip_hello() {
    let (priv_pem, pub_pem) = keypair_one();
    let blob = hyb_encrypt("hello journal", &pub_pem).unwrap();
    assert!(blob.len() > 0);
    let plain = hyb_decrypt(&blob, &priv_pem).unwrap();
    assert_eq!(plain, "hello journal");
}

#[test]
fn round_trip_empty_string() {
    let (priv_pem, pub_pem) = keypair_one();
    let blob = hyb_encrypt("", &pub_pem).unwrap();
    let decoded = b64_decode(&blob);
    assert_eq!(decoded.len(), 256 + 12 + 16);
    let plain = hyb_decrypt(&blob, &priv_pem).unwrap();
    assert_eq!(plain, "");
}

#[test]
fn round_trip_multiline_unicode() {
    let (priv_pem, pub_pem) = keypair_one();
    let text = "Dear diary,\ntoday was na\u{ef}ve caf\u{e9} weather \u{2615}.\n";
    let blob = hyb_encrypt(text, &pub_pem).unwrap();
    let plain = hyb_decrypt(&blob, &priv_pem).unwrap();
    assert_eq!(plain, text);
}

#[test]
fn key_binding_rejects_other_key() {
    let (priv1, pub1) = keypair_one();
    let (priv2, _pub2) = keypair_two();
    let blob = hyb_encrypt("secret entry", &pub1).unwrap();
    assert_eq!(hyb_decrypt(&blob, &priv2), Err(JournalError::Decryption));
    assert_eq!(hyb_decrypt(&blob, &priv1).unwrap(), "secret entry");
}

#[test]
fn ciphertext_nondeterminism() {
    let (priv_pem, pub_pem) = keypair_one();
    let blob1 = hyb_encrypt("same words", &pub_pem).unwrap();
    let blob2 = hyb_encrypt("same words", &pub_pem).unwrap();
    assert_ne!(blob1, blob2);
    assert_eq!(hyb_decrypt(&blob1, &priv_pem).unwrap(), "same words");
    assert_eq!(hyb_decrypt(&blob2, &priv_pem).unwrap(), "same words");
}

#[test]
fn tamper_symmetric_segment_detected() {
    let (priv_pem, pub_pem) = keypair_one();
    let blob = hyb_encrypt("untampered text", &pub_pem).unwrap();
    let decoded = b64_decode(&blob);
    for (byte_index, bit) in [(268usize, 0u8), (decoded.len() - 1, 7)] {
        let mut tampered = decoded.clone();
        tampered[byte_index] ^= 1u8 << bit;
        let r = hyb_decrypt(&b64_encode(&tampered), &priv_pem);
        assert_eq!(r, Err(JournalError::Decryption));
    }
}

#[test]
fn tamper_asymmetric_segment_detected() {
    let (priv_pem, pub_pem) = keypair_one();
    let blob = hyb_encrypt("untampered text", &pub_pem).unwrap();
    let mut decoded = b64_decode(&blob);
    decoded[0] ^= 1;
    let r = hyb_decrypt(&b64_encode(&decoded), &priv_pem);
    assert_eq!(r, Err(JournalError::Decryption));
}

#[test]
fn short_blob_rejected() {
    let empty = b64_encode(&[]);
    assert_eq!(hyb_decrypt(&empty, NOT_A_KEY), Err(JournalError::MalformedBlob));
    let short = b64_encode(&vec![0u8; 267]);
    assert_eq!(hyb_decrypt(&short, NOT_A_KEY), Err(JournalError::MalformedBlob));
    let at_limit = b64_encode(&vec![0u8; 268]);
    assert_eq!(hyb_decrypt(&at_limit, NOT_A_KEY), Err(JournalError::Decryption));
}

#[test]
fn invalid_base64_rejected() {
    let r = hyb_decrypt("this is not base64 !!!", NOT_A_KEY);
    assert_eq!(r, Err(JournalError::MalformedBlob));
}

#[test]
fn bad_public_key_rejected() {
    let r = hyb_encrypt("anything", NOT_A_KEY);
    assert_eq!(r, Err(JournalError::Encryption));
}

#[test]
fn bad_private_key_rejected() {
    let (_priv_pem, pub_pem) = keypair_one();
    let blob = hyb_encrypt("anything", &pub_pem).unwrap();
    let r = hyb_decrypt(&blob, NOT_A_KEY);
    assert_eq!(r, Err(JournalError::Decryption));
}

#[test]
fn non_utf8_plaintext_bytes_fail_encoding() {
    let (priv_pem, pub_pem) = keypair_one();
    let key_bytes = [7u8; 32];
    let nonce_bytes = [9u8; 12];
    let cipher: aes_gcm::Aes256Gcm =
        aes_gcm::KeyInit::new(aes_gcm::Key::<aes_gcm::Aes256Gcm>::from_slice(&key_bytes));
    let sealed = aes_gcm::aead::Aead::encrypt(
        &cipher,
        aes_gcm::Nonce::from_slice(&nonce_bytes),
        &[0xffu8, 0xfe, 0x01][..],
    )
    .unwrap();
    let pk: rsa::RsaPublicKey =
        rsa::pkcs8::DecodePublicKey::from_public_key_pem(&pub_pem).unwrap();
    let enc_key = pk
        .encrypt(&mut aes_gcm::aead::OsRng, rsa::Pkcs1v15Encrypt, &key_bytes[..])
        .unwrap();
    let mut combined = Vec::new();
    combined.extend_from_slice(&enc_key);
    combined.extend_from_slice(&nonce_bytes);
    combined.extend_from_slice(&sealed);
    let r = hyb_decrypt(&b64_encode(&combined), &priv_pem);
    assert_eq!(r, Err(JournalError::Encoding));
}

#[test]
fn scenario_generated_keypair() {
    let (private_pem, public_pem) = rsa_gen_keypair().unwrap();
    let (other_private_pem, _other_public_pem) = keypair_two();
    assert!(private_pem.contains("BEGIN PRIVATE KEY"));
    assert!(public_pem.contains("BEGIN PUBLIC KEY"));
    let blob = hyb_encrypt("hello journal", &public_pem).unwrap();
    assert!(blob.len() > 0);
    assert_eq!(hyb_decrypt(&blob, &private_pem).unwrap(), "hello journal");
    assert_eq!(
        hyb_decrypt(&blob, &other_private_pem),
        Err(JournalError::Decryption)
    );
}
