use pyc::translator::{new_translator, str_to_language, Language, LanguageTranslator, ParserError, Translator};

#[test]
fn test_translator_lang_ukrainian_to_latin() {
    //Simple commands
    let translator: LanguageTranslator = new_translator(Language::Ukrainian);
    //ls -l
    let input: String = String::from("лс -л");
    let output = translator.to_latin(&input).unwrap();
    println!("\"{}\" => \"{}\"", input, output);
    assert_eq!(output, "ls -l");
    //Echo hello
    let input: String = String::from("екхо хелло");
    let output = translator.to_latin(&input).unwrap();
    println!("\"{}\" => \"{}\"", input, output);
    assert_eq!(output, "echo hello");
    //K vs C
    let input: String = String::from("ифконфиг етх0 аддресс 192.168.1.30 нетмаскʼ 255.255.255.0"); //Use твёрдйй знак to force k in netmask
    let output = translator.to_latin(&input).unwrap();
    println!("\"{}\" => \"{}\"", input, output);
    assert_eq!(output, "ifconfig eth0 address 192.168.1.30 netmask 255.255.255.0");
    let input: String = String::from("кат РЕАДМЕ.мд");
    let output = translator.to_latin(&input).unwrap();
    println!("\"{}\" => \"{}\"", input, output);
    assert_eq!(output, "cat README.md");
    //Test all letters (Lowercase)
    let input: String = String::from("абкьдефгґхиіїжкʼлмнопкюрстуввьксйзшщюячц");
    let output = translator.to_latin(&input).unwrap();
    println!("\"{}\" => \"{}\"", input, output);
    assert_eq!(output, "abcdefgghiiyijklmnopqrstuvwxyzshshhyuyachz");
    //Test all letters (Uppercase)
    let input: String = String::from("АБКЬДЕФГҐХИІЇЖКʼЛМНОПКЮРСТУВВЬКСЙЗШЩЮЯЧЦ");
    let output = translator.to_latin(&input).unwrap();
    println!("\"{}\" => \"{}\"", input, output);
    assert_eq!(output, "ABCDEFGGHIIYIJKLMNOPQRSTUVWXYZSHSHHYUYACHZ");
    //Special cases 'Q'
    let input: String = String::from("москюуитто_пуб");
    let output = translator.to_latin(&input).unwrap();
    println!("\"{}\" => \"{}\"", input, output);
    assert_eq!(output, "mosquitto_pub");
    let input: String = String::from("МОСКЮУИТТО_ПУБ");
    let output = translator.to_latin(&input).unwrap();
    println!("\"{}\" => \"{}\"", input, output);
    assert_eq!(output, "MOSQUITTO_PUB");
    //Special case: В as last character
    let input: String = String::from("срв");
    let output = translator.to_latin(&input).unwrap();
    println!("\"{}\" => \"{}\"", input, output);
    assert_eq!(output, "srv");
    let input: String = String::from("СРВ");
    let output = translator.to_latin(&input).unwrap();
    println!("\"{}\" => \"{}\"", input, output);
    assert_eq!(output, "SRV");
    //Special case: Ye
    let input: String = String::from("єлл");
    let output = translator.to_latin(&input).unwrap();
    println!("\"{}\" => \"{}\"", input, output);
    assert_eq!(output, "yell");
    let input: String = String::from("ЄЛЛ");
    let output = translator.to_latin(&input).unwrap();
    println!("\"{}\" => \"{}\"", input, output);
    assert_eq!(output, "YELL");
    //Special case: ck
    let input: String = String::from("чекк чекк");
    let output = translator.to_latin(&input).unwrap();
    println!("\"{}\" => \"{}\"", input, output);
    assert_eq!(output, "check check");
    let input: String = String::from("ЧЕКК ЧЕКК");
    let output = translator.to_latin(&input).unwrap();
    println!("\"{}\" => \"{}\"", input, output);
    assert_eq!(output, "CHECK CHECK");
    //Special case: k as last character which becomes 'c'
    let input: String = String::from("рек к к");
    let output = translator.to_latin(&input).unwrap();
    println!("\"{}\" => \"{}\"", input, output);
    assert_eq!(output, "rec k k");
    let input: String = String::from("РЕК К К");
    let output = translator.to_latin(&input).unwrap();
    println!("\"{}\" => \"{}\"", input, output);
    assert_eq!(output, "REC K K");
    //Special case: k as last character which becomes 'k'
    let input: String = String::from("ок ок");
    let output = translator.to_latin(&input).unwrap();
    println!("\"{}\" => \"{}\"", input, output);
    assert_eq!(output, "ok ok");
    let input: String = String::from("ОК ОК");
    let output = translator.to_latin(&input).unwrap();
    println!("\"{}\" => \"{}\"", input, output);
    assert_eq!(output, "OK OK");
    //Special case: k as first character
    let input: String = String::from("к о");
    let output = translator.to_latin(&input).unwrap();
    println!("\"{}\" => \"{}\"", input, output);
    assert_eq!(output, "k o");
    let input: String = String::from("К О");
    let output = translator.to_latin(&input).unwrap();
    println!("\"{}\" => \"{}\"", input, output);
    assert_eq!(output, "K O");
    //Special case: k as last character, but preceeded by 'к' | 'а' | 'и' | 'о'
    let input: String = String::from("как бар");
    let output = translator.to_latin(&input).unwrap();
    println!("\"{}\" => \"{}\"", input, output);
    assert_eq!(output, "cak bar");
    let input: String = String::from("КАК БАР");
    let output = translator.to_latin(&input).unwrap();
    println!("\"{}\" => \"{}\"", input, output);
    assert_eq!(output, "CAK BAR");
    let input: String = String::from("как");
    let output = translator.to_latin(&input).unwrap();
    println!("\"{}\" => \"{}\"", input, output);
    assert_eq!(output, "cak");
    let input: String = String::from("КАК");
    let output = translator.to_latin(&input).unwrap();
    println!("\"{}\" => \"{}\"", input, output);
    assert_eq!(output, "CAK");
    //Special case: k out of matches
    let input: String = String::from("кд");
    let output = translator.to_latin(&input).unwrap();
    println!("\"{}\" => \"{}\"", input, output);
    assert_eq!(output, "cd");
    let input: String = String::from("КД");
    let output = translator.to_latin(&input).unwrap();
    println!("\"{}\" => \"{}\"", input, output);
    assert_eq!(output, "CD");
    //Backtick and quote
    let input: String = String::from("ʼьʼЬ");
    let output = translator.to_latin(&input).unwrap();
    println!("\"{}\" => \"{}\"", input, output);
    assert_eq!(output, "'`'`");
    //Symbols
    let input: String = String::from("№");
    let output = translator.to_latin(&input).unwrap();
    println!("\"{}\" => \"{}\"", input, output);
    assert_eq!(output, "#");
}

#[test]
fn test_translator_lang_ukrainian_to_cyrillic() {
    let translator: LanguageTranslator = new_translator(Language::Ukrainian);
    //Test all
    let input: String = String::from("a b c d e f g h i j k l m n o p q r s t u v w x y z");
    let output = translator.to_cyrillic(&input);
    println!("\"{}\" => \"{}\"", input, output);
    assert_eq!(output, "а б к д е ф г х и ж к л м н о п кю р с т у в у кс й з");
    let input: String = String::from("A B C D E F G H I J K L M N O P Q R S T U V W X Y Z");
    let output = translator.to_cyrillic(&input);
    println!("\"{}\" => \"{}\"", input, output);
    assert_eq!(output, "А Б К Д Е Ф Г Х И Ж К Л М Н О П КЮ Р С Т У В У КС Й З");
    //Test particular case (sh)
    let input: String = String::from("shell");
    let output = translator.to_cyrillic(&input);
    println!("\"{}\" => \"{}\"", input, output);
    assert_eq!(output, "шелл");
    let input: String = String::from("SHELL");
    let output = translator.to_cyrillic(&input);
    println!("\"{}\" => \"{}\"", input, output);
    assert_eq!(output, "ШЕЛЛ");
    //Test particular case (jo) Ё
    let input: String = String::from("Option");
    let output = translator.to_cyrillic(&input);
    println!("\"{}\" => \"{}\"", input, output);
    assert_eq!(output, "Оптион");
    let input: String = String::from("OPTION");
    let output = translator.to_cyrillic(&input);
    println!("\"{}\" => \"{}\"", input, output);
    assert_eq!(output, "ОПТИОН");
    //Test particular case (ts)
    let input: String = String::from("tsunami");
    let output = translator.to_cyrillic(&input);
    println!("\"{}\" => \"{}\"", input, output);
    assert_eq!(output, "цунами");
    let input: String = String::from("TSUNAMI");
    let output = translator.to_cyrillic(&input);
    println!("\"{}\" => \"{}\"", input, output);
    assert_eq!(output, "ЦУНАМИ");
    //Test particular case (g)
    let input: String = String::from("gin and games");
    let output = translator.to_cyrillic(&input);
    println!("\"{}\" => \"{}\"", input, output);
    assert_eq!(output, "джин анд гамес");
    let input: String = String::from("GIN AND GAMES");
    let output = translator.to_cyrillic(&input);
    println!("\"{}\" => \"{}\"", input, output);
    assert_eq!(output, "ДЖИН АНД ГАМЕС");
    //Test particular case (iu)
    let input: String = String::from("iuta");
    let output = translator.to_cyrillic(&input);
    println!("\"{}\" => \"{}\"", input, output);
    assert_eq!(output, "юта");
    let input: String = String::from("IUTA");
    let output = translator.to_cyrillic(&input);
    println!("\"{}\" => \"{}\"", input, output);
    assert_eq!(output, "ЮТА");
    //Test particular case (ye)
    let input: String = String::from("yellow");
    let output = translator.to_cyrillic(&input);
    println!("\"{}\" => \"{}\"", input, output);
    assert_eq!(output, "єллоу");
    let input: String = String::from("YELLOW");
    let output = translator.to_cyrillic(&input);
    println!("\"{}\" => \"{}\"", input, output);
    assert_eq!(output, "ЄЛЛОУ");
    //Test particular case (giu) + (ia)
    let input: String = String::from("giulia");
    let output = translator.to_cyrillic(&input);
    println!("\"{}\" => \"{}\"", input, output);
    assert_eq!(output, "джюля");
    let input: String = String::from("GIULIA");
    let output = translator.to_cyrillic(&input);
    println!("\"{}\" => \"{}\"", input, output);
    assert_eq!(output, "ДЖЮЛЯ");
    //Test case 'ch'
    let input: String = String::from("channel");
    let output = translator.to_cyrillic(&input);
    println!("\"{}\" => \"{}\"", input, output);
    assert_eq!(output, "чаннел");
    let input: String = String::from("CHANNEL");
    let output = translator.to_cyrillic(&input);
    println!("\"{}\" => \"{}\"", input, output);
    assert_eq!(output, "ЧАННЕЛ");
    //Test some words
    let input: String = String::from("Usage: cat [OPTION]... [FILE]...");
    let output = translator.to_cyrillic(&input);
    println!("\"{}\" => \"{}\"", input, output);
    assert_eq!(output, "Усадже: кат [ОПТИОН]... [ФИЛЕ]...");
    //Special cases: last character is 'c'
    let input: String = String::from("chic");
    let output = translator.to_cyrillic(&input);
    println!("\"{}\" => \"{}\"", input, output);
    assert_eq!(output, "чик");
    let input: String = String::from("CHIC");
    let output = translator.to_cyrillic(&input);
    println!("\"{}\" => \"{}\"", input, output);
    assert_eq!(output, "ЧИК");
    //Special cases: last character is 'п'
    let input: String = String::from("gag");
    let output = translator.to_cyrillic(&input);
    println!("\"{}\" => \"{}\"", input, output);
    assert_eq!(output, "гаг");
    let input: String = String::from("GAG");
    let output = translator.to_cyrillic(&input);
    println!("\"{}\" => \"{}\"", input, output);
    assert_eq!(output, "ГАГ");
    //Special cases: last character is 'i'
    let input: String = String::from("vi");
    let output = translator.to_cyrillic(&input);
    println!("\"{}\" => \"{}\"", input, output);
    assert_eq!(output, "ви");
    let input: String = String::from("VI");
    let output = translator.to_cyrillic(&input);
    println!("\"{}\" => \"{}\"", input, output);
    assert_eq!(output, "ВИ");
    //Special cases: last character is 's'
    let input: String = String::from("less");
    let output = translator.to_cyrillic(&input);
    println!("\"{}\" => \"{}\"", input, output);
    assert_eq!(output, "лесс");
    let input: String = String::from("LESS");
    let output = translator.to_cyrillic(&input);
    println!("\"{}\" => \"{}\"", input, output);
    assert_eq!(output, "ЛЕСС");
    //Special cases: last character is 't'
    let input: String = String::from("cat");
    let output = translator.to_cyrillic(&input);
    println!("\"{}\" => \"{}\"", input, output);
    assert_eq!(output, "кат");
    let input: String = String::from("CAT");
    let output = translator.to_cyrillic(&input);
    println!("\"{}\" => \"{}\"", input, output);
    assert_eq!(output, "КАТ");
    //Special cases: y
    let input: String = String::from("yacc");
    let output = translator.to_cyrillic(&input);
    println!("\"{}\" => \"{}\"", input, output);
    assert_eq!(output, "йакк");
    let input: String = String::from("YACC");
    let output = translator.to_cyrillic(&input);
    println!("\"{}\" => \"{}\"", input, output);
    assert_eq!(output, "ЙАКК");
    //Special cases: y part 2
    let input: String = String::from("y");
    let output = translator.to_cyrillic(&input);
    println!("\"{}\" => \"{}\"", input, output);
    assert_eq!(output, "й");
    let input: String = String::from("Y");
    let output = translator.to_cyrillic(&input);
    println!("\"{}\" => \"{}\"", input, output);
    assert_eq!(output, "Й");
}

#[test]
fn test_language() {
    let language: Language = Language::Russian;
    assert_eq!(language.to_string(), String::from("рус"))
}

#[test]
fn test_language_ukrainian_tag() {
    let language: Language = Language::Ukrainian;
    assert_eq!(language.to_string(), String::from("укр"))
}

#[test]
fn test_str_to_language() {
    assert_eq!(str_to_language("ru"), Some(Language::Russian));
    assert_eq!(str_to_language("рус"), Some(Language::Russian));
    assert_eq!(str_to_language("uk"), Some(Language::Ukrainian));
    assert_eq!(str_to_language("укр"), Some(Language::Ukrainian));
    assert_eq!(str_to_language("fr"), None);
    assert_eq!(str_to_language(""), None);
}

// A conversion to the target script and back is not lossless: the letters
// that collapse onto K/C readings, and the SHH digraph, do not return.
#[test]
fn test_round_trip_not_lossless() {
    let translator: LanguageTranslator = new_translator(Language::Ukrainian);
    let input: String = String::from("щ");
    let latin = translator.to_latin(&input).unwrap();
    assert_eq!(latin, "shh");
    let back = translator.to_cyrillic(&latin);
    assert_eq!(back, "шх");
    assert_ne!(back, input);
}

// Quoted text passes through unchanged; the quotes themselves are kept.
#[test]
fn test_to_latin_quoted_literal() {
    let translator: LanguageTranslator = new_translator(Language::Ukrainian);
    let input: String = String::from("екхо \"лс\"");
    let output = translator.to_latin(&input).unwrap();
    assert_eq!(output, "echo \"лс\"");
}

// A substitution block is rewritten to the shell's sigil and its inside is
// converted even within an outer quoted literal.
#[test]
fn test_to_latin_substitution_block() {
    let translator: LanguageTranslator = new_translator(Language::Ukrainian);
    let input: String = String::from("екхо \"а ₴(лс -л) б\"");
    let output = translator.to_latin(&input).unwrap();
    assert_eq!(output, "echo \"а $(ls -l) б\"");
}

// A backslash escapes the following quote, which then does not open a
// quoted literal.
#[test]
fn test_to_latin_escaped_quote() {
    let translator: LanguageTranslator = new_translator(Language::Ukrainian);
    let input: String = String::from("екхо \\\"лс\\\"");
    let output = translator.to_latin(&input).unwrap();
    assert_eq!(output, "echo \\\"ls\\\"");
}

// Unmatched `)`, unterminated quote, unterminated substitution, and a
// trailing backslash all fail with the missing-token error.
#[test]
fn test_to_latin_syntax_errors() {
    let translator: LanguageTranslator = new_translator(Language::Ukrainian);
    assert_eq!(translator.to_latin(&String::from("екхо )")), Err(ParserError::MissingToken));
    assert_eq!(translator.to_latin(&String::from("екхо \"лс")), Err(ParserError::MissingToken));
    assert_eq!(translator.to_latin(&String::from("екхо ₴(лс")), Err(ParserError::MissingToken));
    assert_eq!(translator.to_latin(&String::from("екхо \\")), Err(ParserError::MissingToken));
}

// The ts digraph is recognized in every letter-case combination.
#[test]
fn test_ts_digraph_cases() {
    let translator: LanguageTranslator = new_translator(Language::Ukrainian);
    assert_eq!(translator.to_cyrillic(&String::from("ts")), "ц");
    assert_eq!(translator.to_cyrillic(&String::from("tS")), "ц");
    assert_eq!(translator.to_cyrillic(&String::from("Ts")), "Ц");
    assert_eq!(translator.to_cyrillic(&String::from("TS")), "Ц");
}

#[test]
fn test_russian_symmetric_map() {
    let translator: LanguageTranslator = new_translator(Language::Russian);
    let input: String = String::from("привет");
    let latin = translator.to_latin(&input).unwrap();
    assert_eq!(latin, "privet");
    assert_eq!(translator.to_cyrillic(&latin), "привет");
    // characters without a counterpart pass through unchanged
    let odd: String = String::from("щука 7!");
    let out = translator.to_latin(&odd).unwrap();
    assert_eq!(out, "\u{449}uka 7!");
}
