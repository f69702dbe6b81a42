use tamanduauth::services::domain::ValidationRequest;

fn is_hyphenated_v4(code: &str) -> bool {
    let chars: Vec<char> = code.chars().collect();
    if chars.len() != 36 {
        return false;
    }
    for (i, c) in chars.iter().enumerate() {
        if i == 8 || i == 13 || i == 18 || i == 23 {
            if *c != '-' {
                return false;
            }
        } else if !(c.is_ascii_digit() || ('a'..='f').contains(c)) {
            return false;
        }
    }
    chars[14] == '4' && "89ab".contains(chars[19])
}

#[test]
fn new_request_keeps_the_address() {
    let request = ValidationRequest::new("aluno@aluno.ufabc.edu.br".to_string());
    assert_eq!(request.email, "aluno@aluno.ufabc.edu.br");
}

#[test]
fn new_request_code_is_a_hyphenated_random_uuid() {
    let request = ValidationRequest::new("a@ufabc.edu.br".to_string());
    assert!(is_hyphenated_v4(&request.hashed_code), "{}", request.hashed_code);
    assert_eq!((request.id >> 76) & 0xf, 4);
    assert_eq!((request.id >> 62) & 0x3, 2);
}

#[test]
fn new_requests_differ() {
    let a = ValidationRequest::new("a@ufabc.edu.br".to_string());
    let b = ValidationRequest::new("a@ufabc.edu.br".to_string());
    assert_ne!(a.id, b.id);
    assert_ne!(a.hashed_code, b.hashed_code);
}
